//! The reader that decodes a class file from bytes.
use crate::bytes::{
    be_u16, be_u32, be_u64, get_i32, get_i64, get_u16, get_u32, get_u64, get_u8, lemma_u16_bytes,
    lemma_u32_bytes, lemma_u64_bytes, signed32, signed64, u16_bytes, u32_bytes, u64_bytes,
};
use crate::error::{DecodeError, DecodeErrorKind};
use crate::format::{
    entry_fits, pool_fits,
    head_bytes, head_end, pool_bytes, pool_end, pool_layout, tail_bytes, tail_end,
    attribute_bytes, attribute_end, attributes_bytes, attributes_end, fields_bytes,
    interfaces_end, members_end, methods_bytes,
    attribute_name, entry_bytes, entry_end, is_wide_entry, takes_two_slots,
    body_bytes, body_end, bootstrap_bytes, bootstrap_end, bootstraps_bytes, bootstraps_end, eof,
    exceptions_bytes, fault, fixed_end, frame_bytes, frame_end, frames_bytes, frames_end,
    indices_bytes, lines_bytes, vti_bytes, vti_end, vtis_bytes, vtis_end,
    attribute_formed, attributes_formed, body_formed, bootstraps_formed, fields_formed,
    frame_formed, frames_formed, methods_formed, tail_formed,
};
use crate::reader::{
    ClassAccessFlags, ClassFile,
    Attribute, AttributeInfo, AttributeName, BootstrapMethod, ConstantPoolInfo, ConstantPoolTag,
    ExceptionTable, FieldAccessFlags, FieldInfo, LineNumberTable, MethodAccessFlags, MethodInfo,
    StackMapFrame, VerificationTypeInfo,
};
use crate::text::{same_text, string_from_utf8};
use vstd::prelude::*;
use vstd::slice::{slice_subrange, slice_to_vec};

verus! {

/// Decodes a class file from a buffer of bytes, front to back.
#[derive(Debug)]
pub struct ClassFileReader {
    /// The input.
    pub buf: Vec<u8>,
    /// The position of the next byte to read.
    pub pos: usize,
    /// The constant pool, once the reader has decoded it; attributes are
    /// told apart by the names that it holds.
    pub constant_pool: Vec<ConstantPoolInfo>,
}

/// The bytes of what a read returned, or the failure it returned.
pub open spec fn laid_out<T>(r: Result<T, DecodeError>, bytes: spec_fn(T) -> Seq<u8>) -> Result<
    Seq<u8>,
    DecodeError,
> {
    match r {
        Ok(x) => Ok(bytes(x)),
        Err(e) => Err(e),
    }
}

/// The failure of running out of input.
pub fn end_of_input(buf: &Vec<u8>) -> (e: DecodeError)
    ensures
        e == eof(buf@),
{
    DecodeError { kind: DecodeErrorKind::UnexpectedEof, offset: buf.len() }
}

/// A sequence cut in two at `b`.
pub proof fn lemma_cut(s: Seq<u8>, a: int, b: int, c: int)
    requires
        0 <= a <= b <= c <= s.len(),
    ensures
        s.subrange(a, c) == s.subrange(a, b) + s.subrange(b, c),
{
    assert(s.subrange(a, c) =~= s.subrange(a, b) + s.subrange(b, c));
}

/// Decoding the class file that starts at `start` in `s` returns `r`, ends
/// at `end` and leaves the pool `kept` in the reader.
///
/// On success the head of the class file (magic word, versions and constant
/// pool) and the part behind it end where the format says, and laid out as
/// bytes they are the bytes from `start` to `end`.  Every record of the
/// class file has the form that its bytes give: every table is as long as
/// its count says, every attribute is of the kind that its name selects,
/// and every stack-map frame is of the form of its frame type.  On
/// failure the failure is the one that the format names: either for the
/// head, or, with the head decoded and its pool kept, for the part behind
/// it.
pub open spec fn decodes(
    s: Seq<u8>,
    start: int,
    end: int,
    kept: Seq<ConstantPoolInfo>,
    r: Result<ClassFile, DecodeError>,
) -> bool {
    let head = head_end(s, start);
    match r {
        Ok(cf) => {
            &&& head is Ok
            &&& start <= head->Ok_0 <= end
            &&& head_bytes(cf) == s.subrange(start, head->Ok_0)
            &&& pool_layout(cf.constant_pool@)
            &&& pool_fits(cf.constant_pool@)
            &&& cf.constant_pool@.len() == cf.constant_pool_count
            &&& tail_end(s, cf.constant_pool@, head->Ok_0) == Ok::<int, DecodeError>(end)
            &&& tail_bytes(cf) == s.subrange(head->Ok_0, end)
            &&& ClassFileReader::interfaces_of(
                cf.constant_pool@,
                cf.interface_indices@,
                cf.interfaces@,
            )
            &&& tail_formed(cf)
        },
        Err(e) => {
            ||| head == Err::<int, DecodeError>(e)
            ||| {
                &&& head is Ok
                &&& start + 10 <= head->Ok_0
                &&& pool_bytes(kept) == s.subrange(start + 10, head->Ok_0)
                &&& pool_layout(kept)
                &&& kept.len() == be_u16(s, start + 8)
                &&& tail_end(s, kept, head->Ok_0) == Err::<int, DecodeError>(e)
            }
        },
    }
}

impl ClassFileReader {
    /// The position lies within the input or at its end.
    pub open spec fn wf(&self) -> bool {
        self.pos <= self.buf@.len()
    }

    /// `post` is the reader `pre` after a read from the same input with the
    /// same constant pool.
    pub open spec fn moved(pre: ClassFileReader, post: ClassFileReader) -> bool {
        &&& post.buf == pre.buf
        &&& post.constant_pool == pre.constant_pool
        &&& post.wf()
        &&& pre.pos <= post.pos
    }

    /// A read went as the format says.  `end` is where the format says the
    /// record at the reader's position ends, or why there is none;
    /// `outcome` holds the bytes of the record that the read returned, or
    /// the failure it returned.  On success the reader stands at the end of
    /// the record and the record's bytes are the bytes that it passed; a
    /// failure is the one that the format names.
    pub open spec fn reads(
        pre: ClassFileReader,
        post: ClassFileReader,
        end: Result<int, DecodeError>,
        outcome: Result<Seq<u8>, DecodeError>,
    ) -> bool {
        Self::reads_from(pre, post, pre.pos as int, end, outcome)
    }

    /// As `reads`, for a record that starts at `start`, at or before the
    /// reader's position.
    pub open spec fn reads_from(
        pre: ClassFileReader,
        post: ClassFileReader,
        start: int,
        end: Result<int, DecodeError>,
        outcome: Result<Seq<u8>, DecodeError>,
    ) -> bool {
        &&& Self::moved(pre, post)
        &&& match outcome {
            Ok(bytes) => end == Ok::<int, DecodeError>(post.pos as int) && bytes
                == pre.buf@.subrange(start, post.pos as int),
            Err(e) => end == Err::<int, DecodeError>(e),
        }
    }

    /// What a read of `n` bytes at once returns: the reader moves `n` bytes
    /// on, or, where fewer than `n` bytes are left, fails at the end of the
    /// input.
    pub open spec fn takes<T>(
        pre: ClassFileReader,
        post: ClassFileReader,
        r: Result<T, DecodeError>,
        n: int,
    ) -> bool {
        &&& Self::moved(pre, post)
        &&& r is Ok <==> pre.pos + n <= pre.buf@.len()
        &&& r is Ok ==> post.pos == pre.pos + n
        &&& r is Err ==> r->Err_0 == eof(pre.buf@)
    }

    /// A reader at the start of `bytes`.
    pub fn new(bytes: Vec<u8>) -> (r: ClassFileReader)
        ensures
            r.buf == bytes,
            r.pos == 0,
            r.constant_pool@ == Seq::<ConstantPoolInfo>::empty(),
            r.wf(),
    {
        ClassFileReader { buf: bytes, pos: 0, constant_pool: Vec::new() }
    }

    /// Reads one byte.
    pub fn read_u8(&mut self) -> (r: Result<u8, DecodeError>)
        requires
            old(self).wf(),
        ensures
            Self::takes(*old(self), *final(self), r, 1),
            r is Ok ==> r->Ok_0 == old(self).buf@[old(self).pos as int],
    {
        let _ = self.buf.len();
        match get_u8(self.buf.as_slice(), self.pos) {
            Some(v) => {
                self.pos = self.pos + 1;
                Ok(v)
            },
            None => Err(end_of_input(&self.buf)),
        }
    }

    /// Reads a big-endian unsigned 16-bit number.
    pub fn read_u16(&mut self) -> (r: Result<u16, DecodeError>)
        requires
            old(self).wf(),
        ensures
            Self::takes(*old(self), *final(self), r, 2),
            r is Ok ==> r->Ok_0 == be_u16(old(self).buf@, old(self).pos as int) && u16_bytes(
                r->Ok_0 as int,
            ) == old(self).buf@.subrange(old(self).pos as int, old(self).pos + 2),
    {
        let _ = self.buf.len();
        match get_u16(self.buf.as_slice(), self.pos) {
            Some(v) => {
                proof {
                    lemma_u16_bytes(self.buf@, self.pos as int);
                }
                self.pos = self.pos + 2;
                Ok(v)
            },
            None => Err(end_of_input(&self.buf)),
        }
    }

    /// Reads a big-endian unsigned 32-bit number.
    pub fn read_u32(&mut self) -> (r: Result<u32, DecodeError>)
        requires
            old(self).wf(),
        ensures
            Self::takes(*old(self), *final(self), r, 4),
            r is Ok ==> r->Ok_0 == be_u32(old(self).buf@, old(self).pos as int) && u32_bytes(
                r->Ok_0 as int,
            ) == old(self).buf@.subrange(old(self).pos as int, old(self).pos + 4),
    {
        let _ = self.buf.len();
        match get_u32(self.buf.as_slice(), self.pos) {
            Some(v) => {
                proof {
                    lemma_u32_bytes(self.buf@, self.pos as int);
                }
                self.pos = self.pos + 4;
                Ok(v)
            },
            None => Err(end_of_input(&self.buf)),
        }
    }

    /// Reads a big-endian signed 32-bit number.
    pub fn read_i32(&mut self) -> (r: Result<i32, DecodeError>)
        requires
            old(self).wf(),
        ensures
            Self::takes(*old(self), *final(self), r, 4),
            r is Ok ==> r->Ok_0 == signed32(be_u32(old(self).buf@, old(self).pos as int))
                && crate::bytes::i32_bytes(r->Ok_0) == old(self).buf@.subrange(
                old(self).pos as int,
                old(self).pos + 4,
            ),
    {
        let _ = self.buf.len();
        match get_i32(self.buf.as_slice(), self.pos) {
            Some(v) => {
                proof {
                    lemma_u32_bytes(self.buf@, self.pos as int);
                }
                self.pos = self.pos + 4;
                Ok(v)
            },
            None => Err(end_of_input(&self.buf)),
        }
    }

    /// Reads a big-endian unsigned 64-bit number.
    pub fn read_u64(&mut self) -> (r: Result<u64, DecodeError>)
        requires
            old(self).wf(),
        ensures
            Self::takes(*old(self), *final(self), r, 8),
            r is Ok ==> r->Ok_0 == be_u64(old(self).buf@, old(self).pos as int) && u64_bytes(
                r->Ok_0 as int,
            ) == old(self).buf@.subrange(old(self).pos as int, old(self).pos + 8),
    {
        let _ = self.buf.len();
        match get_u64(self.buf.as_slice(), self.pos) {
            Some(v) => {
                proof {
                    lemma_u64_bytes(self.buf@, self.pos as int);
                }
                self.pos = self.pos + 8;
                Ok(v)
            },
            None => Err(end_of_input(&self.buf)),
        }
    }

    /// Reads a big-endian signed 64-bit number.
    pub fn read_i64(&mut self) -> (r: Result<i64, DecodeError>)
        requires
            old(self).wf(),
        ensures
            Self::takes(*old(self), *final(self), r, 8),
            r is Ok ==> r->Ok_0 == signed64(be_u64(old(self).buf@, old(self).pos as int))
                && crate::bytes::i64_bytes(r->Ok_0) == old(self).buf@.subrange(
                old(self).pos as int,
                old(self).pos + 8,
            ),
    {
        let _ = self.buf.len();
        match get_i64(self.buf.as_slice(), self.pos) {
            Some(v) => {
                proof {
                    lemma_u64_bytes(self.buf@, self.pos as int);
                }
                self.pos = self.pos + 8;
                Ok(v)
            },
            None => Err(end_of_input(&self.buf)),
        }
    }

    /// Reads `n` bytes as they stand.
    pub fn read_bytes(&mut self, n: usize) -> (r: Result<Vec<u8>, DecodeError>)
        requires
            old(self).wf(),
        ensures
            Self::takes(*old(self), *final(self), r, n as int),
            r is Ok ==> r->Ok_0@ == old(self).buf@.subrange(
                old(self).pos as int,
                old(self).pos + n,
            ),
    {
        if self.buf.len() - self.pos < n {
            return Err(end_of_input(&self.buf));
        }
        let part = slice_subrange(self.buf.as_slice(), self.pos, self.pos + n);
        let bytes = slice_to_vec(part);
        self.pos = self.pos + n;
        Ok(bytes)
    }

    /// The failure of kind `kind` at `at`.
    pub fn report_error(kind: DecodeErrorKind, at: usize) -> (e: DecodeError)
        ensures
            e == fault(kind, at as int),
    {
        DecodeError { kind, offset: at }
    }

    /// Reads a verification type.
    pub fn read_verification_type_info(&mut self) -> (r: Result<VerificationTypeInfo, DecodeError>)
        requires
            old(self).wf(),
        ensures
            Self::reads(
                *old(self),
                *final(self),
                vti_end(old(self).buf@, old(self).pos as int),
                laid_out(r, |v: VerificationTypeInfo| vti_bytes(v)),
            ),
    {
        let at = self.pos;
        let ghost s = self.buf@;
        let tag = self.read_u8()?;
        assert(s.subrange(at as int, at + 1) =~= seq![tag]);
        let result = match tag {
            0 => VerificationTypeInfo::Top,
            1 => VerificationTypeInfo::Integer,
            2 => VerificationTypeInfo::Float,
            3 => VerificationTypeInfo::Double,
            4 => VerificationTypeInfo::Long,
            5 => VerificationTypeInfo::Null,
            6 => VerificationTypeInfo::UninitializedThis,
            7 => {
                let cpool_index = self.read_u16()?;
                proof {
                    lemma_cut(s, at as int, at + 1, at + 3);
                }
                VerificationTypeInfo::Object { cpool_index }
            },
            8 => {
                let offset = self.read_u16()?;
                proof {
                    lemma_cut(s, at as int, at + 1, at + 3);
                }
                VerificationTypeInfo::Uninitialized { offset }
            },
            _ => {
                return Err(Self::report_error(DecodeErrorKind::InvalidVerificationTag, at));
            },
        };
        Ok(result)
    }

    /// Reads `n` verification types.
    pub fn read_verification_types(&mut self, n: u16) -> (r: Result<
        Vec<VerificationTypeInfo>,
        DecodeError,
    >)
        requires
            old(self).wf(),
        ensures
            Self::reads(
                *old(self),
                *final(self),
                vtis_end(old(self).buf@, old(self).pos as int, n as int),
                laid_out(r, |v: Vec<VerificationTypeInfo>| vtis_bytes(v@)),
            ),
            r is Ok ==> r->Ok_0@.len() == n,
    {
        let ghost pre = *self;
        let ghost s = self.buf@;
        let mut items: Vec<VerificationTypeInfo> = Vec::new();
        let mut k: u16 = 0;
        assert(s.subrange(pre.pos as int, pre.pos as int) =~= Seq::<u8>::empty());
        while k < n
            invariant
                pre == *old(self),
                Self::moved(pre, *self),
                s == pre.buf@,
                k <= n,
                items@.len() == k,
                vtis_bytes(items@) == s.subrange(pre.pos as int, self.pos as int),
                vtis_end(s, pre.pos as int, n as int) == vtis_end(s, self.pos as int, n - k),
            decreases n - k,
        {
            let ghost at = self.pos;
            let item = self.read_verification_type_info()?;
            proof {
                assert(items@.push(item).drop_last() =~= items@);
                lemma_cut(s, pre.pos as int, at as int, self.pos as int);
            }
            items.push(item);
            k = k + 1;
        }
        Ok(items)
    }

    /// Reads a stack-map frame.
    pub fn read_stack_map_frame(&mut self) -> (r: Result<StackMapFrame, DecodeError>)
        requires
            old(self).wf(),
        ensures
            Self::reads(
                *old(self),
                *final(self),
                frame_end(old(self).buf@, old(self).pos as int),
                laid_out(r, |f: StackMapFrame| frame_bytes(f)),
            ),
            r is Ok ==> frame_formed(r->Ok_0),
    {
        let at = self.pos;
        let ghost s = self.buf@;
        let frame_type = self.read_u8()?;
        assert(s.subrange(at as int, at + 1) =~= seq![frame_type]);
        if frame_type <= 63 {
            Ok(StackMapFrame::Same { offset_delta: frame_type as u16 })
        } else if frame_type <= 127 {
            let item = self.read_verification_type_info()?;
            let stack = vec![item];
            proof {
                assert(stack@.drop_last() =~= Seq::<VerificationTypeInfo>::empty());
                    assert(vtis_bytes(Seq::<VerificationTypeInfo>::empty()) =~= Seq::<u8>::empty());
                    assert(stack@.last() == item);
                assert(vtis_bytes(stack@) =~= vti_bytes(item));
                lemma_cut(s, at as int, at + 1, self.pos as int);
            }
            Ok(StackMapFrame::SameLocals1StackItem { offset_delta: (frame_type - 64) as u16, stack })
        } else if frame_type <= 246 {
            Err(Self::report_error(DecodeErrorKind::InvalidFrameType, at))
        } else {
            let offset_delta = self.read_u16()?;
            proof {
                lemma_cut(s, at as int, at + 1, at + 3);
            }
            if frame_type == 247 {
                let item = self.read_verification_type_info()?;
                let stack = vec![item];
                proof {
                    assert(stack@.drop_last() =~= Seq::<VerificationTypeInfo>::empty());
                    assert(vtis_bytes(Seq::<VerificationTypeInfo>::empty()) =~= Seq::<u8>::empty());
                    assert(stack@.last() == item);
                    assert(vtis_bytes(stack@) =~= vti_bytes(item));
                    lemma_cut(s, at as int, at + 3, self.pos as int);
                }
                Ok(StackMapFrame::SameLocals1StackItemExtended { offset_delta, stack })
            } else if frame_type <= 250 {
                Ok(StackMapFrame::Chop { frame_type, offset_delta })
            } else if frame_type == 251 {
                Ok(StackMapFrame::SameExtended { offset_delta })
            } else if frame_type <= 254 {
                let locals = self.read_verification_types((frame_type - 251) as u16)?;
                proof {
                    lemma_cut(s, at as int, at + 3, self.pos as int);
                }
                Ok(StackMapFrame::Append { offset_delta, locals })
            } else {
                let number_of_locals = self.read_u16()?;
                let locals = self.read_verification_types(number_of_locals)?;
                let ghost mid = self.pos;
                let number_of_stack_items = self.read_u16()?;
                let stack = self.read_verification_types(number_of_stack_items)?;
                proof {
                    lemma_cut(s, at as int, at + 3, at + 5);
                    lemma_cut(s, at as int, at + 5, mid as int);
                    lemma_cut(s, at as int, mid as int, mid + 2);
                    lemma_cut(s, at as int, mid + 2, self.pos as int);
                }
                Ok(
                    StackMapFrame::Full {
                        offset_delta,
                        number_of_locals,
                        locals,
                        number_of_stack_items,
                        stack,
                    },
                )
            }
        }
    }

    /// Reads the body of a `StackMapTable` attribute.
    pub fn read_stack_map_table_attrib(&mut self) -> (r: Result<Attribute, DecodeError>)
        requires
            old(self).wf(),
        ensures
            Self::reads(
                *old(self),
                *final(self),
                body_end(
                    old(self).buf@,
                    old(self).constant_pool@,
                    AttributeName::StackMapTable,
                    old(self).pos as int,
                    0,
                ),
                laid_out(r, |a: Attribute| body_bytes(a)),
            ),
            r is Ok ==> r->Ok_0.name() == AttributeName::StackMapTable,
            r is Ok ==> body_formed(old(self).constant_pool@, r->Ok_0),
    {
        let ghost pre = *self;
        let ghost s = self.buf@;
        let number_of_entries = self.read_u16()?;
        let mut entries: Vec<StackMapFrame> = Vec::new();
        let mut k: u16 = 0;
        let ghost first = self.pos;
        assert(s.subrange(first as int, first as int) =~= Seq::<u8>::empty());
        while k < number_of_entries
            invariant
                pre == *old(self),
                Self::moved(pre, *self),
                s == pre.buf@,
                first == pre.pos + 2,
                first <= self.pos,
                number_of_entries == be_u16(s, pre.pos as int),
                k <= number_of_entries,
                entries@.len() == k,
                frames_formed(entries@),
                frames_bytes(entries@) == s.subrange(first as int, self.pos as int),
                frames_end(s, first as int, number_of_entries as int) == frames_end(
                    s,
                    self.pos as int,
                    number_of_entries - k,
                ),
            decreases number_of_entries - k,
        {
            let ghost at = self.pos;
            let frame = self.read_stack_map_frame()?;
            proof {
                assert(entries@.push(frame).drop_last() =~= entries@);
                lemma_cut(s, first as int, at as int, self.pos as int);
            }
            entries.push(frame);
            k = k + 1;
        }
        proof {
            lemma_cut(s, pre.pos as int, first as int, self.pos as int);
        }
        Ok(Attribute::StackMapTable { number_of_entries, entries })
    }

    /// Reads an exception table of `n` entries.
    pub fn read_exception_table(&mut self, n: u16) -> (r: Result<Vec<ExceptionTable>, DecodeError>)
        requires
            old(self).wf(),
        ensures
            Self::reads(
                *old(self),
                *final(self),
                fixed_end(old(self).buf@, old(self).pos as int, n as int, 8),
                laid_out(r, |v: Vec<ExceptionTable>| exceptions_bytes(v@)),
            ),
            r is Ok ==> r->Ok_0@.len() == n,
    {
        let ghost pre = *self;
        let ghost s = self.buf@;
        let mut tables: Vec<ExceptionTable> = Vec::new();
        let mut k: u16 = 0;
        assert(s.subrange(pre.pos as int, pre.pos as int) =~= Seq::<u8>::empty());
        while k < n
            invariant
                pre == *old(self),
                Self::moved(pre, *self),
                s == pre.buf@,
                k <= n,
                tables@.len() == k,
                self.pos == pre.pos + 8 * k,
                exceptions_bytes(tables@) == s.subrange(pre.pos as int, self.pos as int),
            decreases n - k,
        {
            let ghost at = self.pos;
            let start_pc = self.read_u16()?;
            let end_pc = self.read_u16()?;
            let handler_pc = self.read_u16()?;
            let catch_type = self.read_u16()?;
            let entry = ExceptionTable { start_pc, end_pc, handler_pc, catch_type };
            proof {
                assert(tables@.push(entry).drop_last() =~= tables@);
                lemma_cut(s, at as int, at + 2, at + 4);
                lemma_cut(s, at as int, at + 4, at + 6);
                lemma_cut(s, at as int, at + 6, at + 8);
                lemma_cut(s, pre.pos as int, at as int, self.pos as int);
            }
            tables.push(entry);
            k = k + 1;
        }
        Ok(tables)
    }

    /// Reads the body of a `LineNumberTable` attribute.
    pub fn read_line_number_table_attrib(&mut self) -> (r: Result<Attribute, DecodeError>)
        requires
            old(self).wf(),
        ensures
            Self::reads(
                *old(self),
                *final(self),
                body_end(
                    old(self).buf@,
                    old(self).constant_pool@,
                    AttributeName::LineNumberTable,
                    old(self).pos as int,
                    0,
                ),
                laid_out(r, |a: Attribute| body_bytes(a)),
            ),
            r is Ok ==> r->Ok_0.name() == AttributeName::LineNumberTable,
            r is Ok ==> body_formed(old(self).constant_pool@, r->Ok_0),
    {
        let ghost pre = *self;
        let ghost s = self.buf@;
        let line_number_table_length = self.read_u16()?;
        let mut line_number_table: Vec<LineNumberTable> = Vec::new();
        let mut k: u16 = 0;
        let ghost first = self.pos;
        assert(s.subrange(first as int, first as int) =~= Seq::<u8>::empty());
        while k < line_number_table_length
            invariant
                pre == *old(self),
                Self::moved(pre, *self),
                s == pre.buf@,
                first == pre.pos + 2,
                line_number_table_length == be_u16(s, pre.pos as int),
                k <= line_number_table_length,
                line_number_table@.len() == k,
                self.pos == first + 4 * k,
                lines_bytes(line_number_table@) == s.subrange(first as int, self.pos as int),
            decreases line_number_table_length - k,
        {
            let ghost at = self.pos;
            let start_pc = self.read_u16()?;
            let line_number = self.read_u16()?;
            let entry = LineNumberTable { start_pc, line_number };
            proof {
                assert(line_number_table@.push(entry).drop_last() =~= line_number_table@);
                lemma_cut(s, at as int, at + 2, at + 4);
                lemma_cut(s, first as int, at as int, self.pos as int);
            }
            line_number_table.push(entry);
            k = k + 1;
        }
        proof {
            lemma_cut(s, pre.pos as int, first as int, self.pos as int);
        }
        Ok(Attribute::LineNumberTable { line_number_table_length, line_number_table })
    }

    /// Reads `n` big-endian unsigned 16-bit numbers.
    pub fn read_indices(&mut self, n: u16) -> (r: Result<Vec<u16>, DecodeError>)
        requires
            old(self).wf(),
        ensures
            Self::reads(
                *old(self),
                *final(self),
                fixed_end(old(self).buf@, old(self).pos as int, n as int, 2),
                laid_out(r, |v: Vec<u16>| indices_bytes(v@)),
            ),
            r is Ok ==> r->Ok_0@.len() == n,
    {
        let ghost pre = *self;
        let ghost s = self.buf@;
        let mut indices: Vec<u16> = Vec::new();
        let mut k: u16 = 0;
        assert(s.subrange(pre.pos as int, pre.pos as int) =~= Seq::<u8>::empty());
        while k < n
            invariant
                pre == *old(self),
                Self::moved(pre, *self),
                s == pre.buf@,
                k <= n,
                indices@.len() == k,
                self.pos == pre.pos + 2 * k,
                indices_bytes(indices@) == s.subrange(pre.pos as int, self.pos as int),
            decreases n - k,
        {
            let ghost at = self.pos;
            let index = self.read_u16()?;
            proof {
                assert(indices@.push(index).drop_last() =~= indices@);
                lemma_cut(s, pre.pos as int, at as int, self.pos as int);
            }
            indices.push(index);
            k = k + 1;
        }
        Ok(indices)
    }

    /// Reads an entry of a bootstrap-method table.
    pub fn read_bootstrap_method(&mut self) -> (r: Result<BootstrapMethod, DecodeError>)
        requires
            old(self).wf(),
        ensures
            Self::reads(
                *old(self),
                *final(self),
                bootstrap_end(old(self).buf@, old(self).pos as int),
                laid_out(r, |b: BootstrapMethod| bootstrap_bytes(b)),
            ),
            r is Ok ==> r->Ok_0.bootstrap_arguments@.len() == r->Ok_0.num_bootstrap_arguments,
    {
        let ghost at = self.pos;
        let ghost s = self.buf@;
        let bootstrap_method_ref = self.read_u16()?;
        let num_bootstrap_arguments = self.read_u16()?;
        let bootstrap_arguments = self.read_indices(num_bootstrap_arguments)?;
        proof {
            lemma_cut(s, at as int, at + 2, at + 4);
            lemma_cut(s, at as int, at + 4, self.pos as int);
        }
        Ok(BootstrapMethod { bootstrap_method_ref, num_bootstrap_arguments, bootstrap_arguments })
    }

    /// Reads the body of a `BootstrapMethods` attribute.
    pub fn read_bootstrap_methods_attrib(&mut self) -> (r: Result<Attribute, DecodeError>)
        requires
            old(self).wf(),
        ensures
            Self::reads(
                *old(self),
                *final(self),
                body_end(
                    old(self).buf@,
                    old(self).constant_pool@,
                    AttributeName::BootstrapMethods,
                    old(self).pos as int,
                    0,
                ),
                laid_out(r, |a: Attribute| body_bytes(a)),
            ),
            r is Ok ==> r->Ok_0.name() == AttributeName::BootstrapMethods,
            r is Ok ==> body_formed(old(self).constant_pool@, r->Ok_0),
    {
        let ghost pre = *self;
        let ghost s = self.buf@;
        let num_bootstrap_methods = self.read_u16()?;
        let mut bootstrap_methods: Vec<BootstrapMethod> = Vec::new();
        let mut k: u16 = 0;
        let ghost first = self.pos;
        assert(s.subrange(first as int, first as int) =~= Seq::<u8>::empty());
        while k < num_bootstrap_methods
            invariant
                pre == *old(self),
                Self::moved(pre, *self),
                s == pre.buf@,
                first == pre.pos + 2,
                first <= self.pos,
                num_bootstrap_methods == be_u16(s, pre.pos as int),
                k <= num_bootstrap_methods,
                bootstrap_methods@.len() == k,
                bootstraps_formed(bootstrap_methods@),
                bootstraps_bytes(bootstrap_methods@) == s.subrange(first as int, self.pos as int),
                bootstraps_end(s, first as int, num_bootstrap_methods as int) == bootstraps_end(
                    s,
                    self.pos as int,
                    num_bootstrap_methods - k,
                ),
            decreases num_bootstrap_methods - k,
        {
            let ghost at = self.pos;
            let entry = self.read_bootstrap_method()?;
            proof {
                assert(bootstrap_methods@.push(entry).drop_last() =~= bootstrap_methods@);
                lemma_cut(s, first as int, at as int, self.pos as int);
            }
            bootstrap_methods.push(entry);
            k = k + 1;
        }
        proof {
            lemma_cut(s, pre.pos as int, first as int, self.pos as int);
        }
        Ok(Attribute::BootstrapMethods { num_bootstrap_methods, bootstrap_methods })
    }

    /// Reads the payload of the constant-pool entry whose tag `tag` the
    /// reader has just passed.
    pub(crate) fn constant_tag(&mut self, tag: u8) -> (r: Result<ConstantPoolInfo, DecodeError>)
        requires
            old(self).wf(),
            old(self).pos >= 1,
            old(self).buf@[old(self).pos - 1] == tag,
        ensures
            Self::reads_from(
                *old(self),
                *final(self),
                old(self).pos - 1,
                entry_end(old(self).buf@, old(self).pos - 1),
                laid_out(r, |e: ConstantPoolInfo| entry_bytes(e)),
            ),
            r is Ok ==> !(r->Ok_0 is Unusable) && (is_wide_entry(r->Ok_0) <==> takes_two_slots(tag)),
            r is Ok ==> entry_fits(r->Ok_0),
    {
        let at = self.pos - 1;
        let ghost s = self.buf@;
        assert(s.subrange(at as int, at + 1) =~= seq![tag]);
        let parsed_tag = match ConstantPoolTag::try_from(tag) {
            Some(parsed_tag) => parsed_tag,
            None => {
                return Err(Self::report_error(DecodeErrorKind::InvalidConstantTag, at));
            },
        };
        match parsed_tag {
            ConstantPoolTag::Utf8 => {
                let length = self.read_u16()?;
                let bytes = self.read_bytes(length as usize)?;
                let ghost raw = bytes@;
                match string_from_utf8(bytes) {
                    Some(string) => {
                        proof {
                            lemma_cut(s, at as int, at + 1, at + 3);
                            lemma_cut(s, at as int, at + 3, self.pos as int);
                        }
                        Ok(ConstantPoolInfo::Utf8 { string })
                    },
                    None => Err(Self::report_error(DecodeErrorKind::InvalidUtf8, at)),
                }
            },
            ConstantPoolTag::Integer => {
                let bytes = self.read_i32()?;
                proof {
                    lemma_cut(s, at as int, at + 1, at + 5);
                }
                Ok(ConstantPoolInfo::Integer { bytes })
            },
            ConstantPoolTag::Float => {
                let bytes = self.read_u32()?;
                proof {
                    lemma_cut(s, at as int, at + 1, at + 5);
                }
                Ok(ConstantPoolInfo::Float { bytes })
            },
            ConstantPoolTag::Long => {
                let bytes = self.read_i64()?;
                proof {
                    lemma_cut(s, at as int, at + 1, at + 9);
                }
                Ok(ConstantPoolInfo::Long { bytes })
            },
            ConstantPoolTag::Double => {
                let bytes = self.read_u64()?;
                proof {
                    lemma_cut(s, at as int, at + 1, at + 9);
                }
                Ok(ConstantPoolInfo::Double { bytes })
            },
            ConstantPoolTag::Class => {
                let name_index = self.read_u16()?;
                proof {
                    lemma_cut(s, at as int, at + 1, at + 3);
                }
                Ok(ConstantPoolInfo::Class { name_index })
            },
            ConstantPoolTag::String => {
                let string_index = self.read_u16()?;
                proof {
                    lemma_cut(s, at as int, at + 1, at + 3);
                }
                Ok(ConstantPoolInfo::String { string_index })
            },
            ConstantPoolTag::FieldRef => {
                let class_index = self.read_u16()?;
                let name_and_type_index = self.read_u16()?;
                proof {
                    lemma_cut(s, at as int, at + 1, at + 3);
                    lemma_cut(s, at as int, at + 3, at + 5);
                }
                Ok(ConstantPoolInfo::FieldRef { class_index, name_and_type_index })
            },
            ConstantPoolTag::MethodRef => {
                let class_index = self.read_u16()?;
                let name_and_type_index = self.read_u16()?;
                proof {
                    lemma_cut(s, at as int, at + 1, at + 3);
                    lemma_cut(s, at as int, at + 3, at + 5);
                }
                Ok(ConstantPoolInfo::MethodRef { class_index, name_and_type_index })
            },
            ConstantPoolTag::InterfaceMethodRef => {
                let class_index = self.read_u16()?;
                let name_and_type_index = self.read_u16()?;
                proof {
                    lemma_cut(s, at as int, at + 1, at + 3);
                    lemma_cut(s, at as int, at + 3, at + 5);
                }
                Ok(ConstantPoolInfo::InterfaceMethodRef { class_index, name_and_type_index })
            },
            ConstantPoolTag::NameAndType => {
                let name_index = self.read_u16()?;
                let descriptor_index = self.read_u16()?;
                proof {
                    lemma_cut(s, at as int, at + 1, at + 3);
                    lemma_cut(s, at as int, at + 3, at + 5);
                }
                Ok(ConstantPoolInfo::NameAndType { name_index, descriptor_index })
            },
            ConstantPoolTag::MethodHandle => {
                let reference_kind = self.read_u8()?;
                let reference_index = self.read_u16()?;
                proof {
                    assert(s.subrange(at as int, at + 2) =~= seq![15u8, reference_kind]);
                    lemma_cut(s, at as int, at + 2, at + 4);
                }
                Ok(ConstantPoolInfo::MethodHandle { reference_kind, reference_index })
            },
            ConstantPoolTag::MethodType => {
                let descriptor_index = self.read_u16()?;
                proof {
                    lemma_cut(s, at as int, at + 1, at + 3);
                }
                Ok(ConstantPoolInfo::MethodType { descriptor_index })
            },
            ConstantPoolTag::Dynamic => {
                let bootstrap_method_attr_index = self.read_u16()?;
                let name_and_type_index = self.read_u16()?;
                proof {
                    lemma_cut(s, at as int, at + 1, at + 3);
                    lemma_cut(s, at as int, at + 3, at + 5);
                }
                Ok(ConstantPoolInfo::Dynamic { bootstrap_method_attr_index, name_and_type_index })
            },
            ConstantPoolTag::InvokeDynamic => {
                let bootstrap_method_attr_index = self.read_u16()?;
                let name_and_type_index = self.read_u16()?;
                proof {
                    lemma_cut(s, at as int, at + 1, at + 3);
                    lemma_cut(s, at as int, at + 3, at + 5);
                }
                Ok(
                    ConstantPoolInfo::InvokeDynamic {
                        bootstrap_method_attr_index,
                        name_and_type_index,
                    },
                )
            },
            ConstantPoolTag::Module => {
                let name_index = self.read_u16()?;
                proof {
                    lemma_cut(s, at as int, at + 1, at + 3);
                }
                Ok(ConstantPoolInfo::Module { name_index })
            },
            ConstantPoolTag::Package => {
                let name_index = self.read_u16()?;
                proof {
                    lemma_cut(s, at as int, at + 1, at + 3);
                }
                Ok(ConstantPoolInfo::Package { name_index })
            },
        }
    }

    /// The name of the attribute whose name index is `index`; `at` is where
    /// the attribute starts.
    pub fn attribute_name_at(&self, index: u16, at: usize) -> (r: Result<AttributeName, DecodeError>)
        ensures
            r == attribute_name(self.constant_pool@, index as int, at as int),
    {
        let i = index as usize;
        if i >= self.constant_pool.len() {
            return Err(Self::report_error(DecodeErrorKind::InvalidPoolIndex, at));
        }
        match &self.constant_pool[i] {
            ConstantPoolInfo::Utf8 { string } => Ok(AttributeName::from_name(string.as_str())),
            _ => Err(Self::report_error(DecodeErrorKind::UnexpectedPoolEntry, at)),
        }
    }

    /// Reads the body of a `Code` attribute.
    pub fn read_code_attrib(&mut self) -> (r: Result<Attribute, DecodeError>)
        requires
            old(self).wf(),
        ensures
            Self::reads(
                *old(self),
                *final(self),
                body_end(
                    old(self).buf@,
                    old(self).constant_pool@,
                    AttributeName::Code,
                    old(self).pos as int,
                    0,
                ),
                laid_out(r, |a: Attribute| body_bytes(a)),
            ),
            r is Ok ==> r->Ok_0.name() == AttributeName::Code,
            r is Ok ==> body_formed(old(self).constant_pool@, r->Ok_0),
        decreases old(self).buf@.len() - old(self).pos, 0int,
    {
        let ghost at = self.pos;
        let ghost s = self.buf@;
        let max_stack = self.read_u16()?;
        let max_locals = self.read_u16()?;
        let code_length = self.read_u32()?;
        let code = self.read_bytes(code_length as usize)?;
        let ghost t = self.pos;
        let exception_table_length = self.read_u16()?;
        let exception_table = self.read_exception_table(exception_table_length)?;
        let ghost a = self.pos;
        let attributes_count = self.read_u16()?;
        let attributes = self.read_attributes(attributes_count)?;
        proof {
            lemma_cut(s, at as int, at + 2, at + 4);
            lemma_cut(s, at as int, at + 4, at + 8);
            lemma_cut(s, at as int, at + 8, t as int);
            lemma_cut(s, at as int, t as int, t + 2);
            lemma_cut(s, at as int, t + 2, a as int);
            lemma_cut(s, at as int, a as int, a + 2);
            lemma_cut(s, at as int, a + 2, self.pos as int);
        }
        Ok(
            Attribute::Code {
                max_stack,
                max_locals,
                code_length,
                code,
                exception_table_length,
                exception_table,
                attributes_count,
                attributes,
            },
        )
    }

    /// Reads the body of an attribute named `name` whose declared length is
    /// `length`.
    pub fn read_body(&mut self, name: AttributeName, length: u32) -> (r: Result<
        Attribute,
        DecodeError,
    >)
        requires
            old(self).wf(),
        ensures
            Self::reads(
                *old(self),
                *final(self),
                body_end(
                    old(self).buf@,
                    old(self).constant_pool@,
                    name,
                    old(self).pos as int,
                    length as int,
                ),
                laid_out(r, |a: Attribute| body_bytes(a)),
            ),
            r is Ok ==> r->Ok_0.name() == name,
            r is Ok ==> body_formed(old(self).constant_pool@, r->Ok_0),
        decreases old(self).buf@.len() - old(self).pos, 1int,
    {
        let ghost s = self.buf@;
        let ghost at = self.pos;
        match name {
            AttributeName::ConstantValue => {
                let constantvalue_index = self.read_u16()?;
                Ok(Attribute::ConstantValue { constantvalue_index })
            },
            AttributeName::SourceFile => {
                let sourcefile_index = self.read_u16()?;
                Ok(Attribute::SourceFile { sourcefile_index })
            },
            AttributeName::NestHost => {
                let host_class_index = self.read_u16()?;
                Ok(Attribute::NestHost { host_class_index })
            },
            AttributeName::Code => self.read_code_attrib(),
            AttributeName::StackMapTable => self.read_stack_map_table_attrib(),
            AttributeName::LineNumberTable => self.read_line_number_table_attrib(),
            AttributeName::BootstrapMethods => self.read_bootstrap_methods_attrib(),
            AttributeName::NestMembers => {
                let number_of_classes = self.read_u16()?;
                let classes = self.read_indices(number_of_classes)?;
                proof {
                    lemma_cut(s, at as int, at + 2, self.pos as int);
                }
                Ok(Attribute::NestMembers { number_of_classes, classes })
            },
            AttributeName::PermittedSubclasses => {
                let number_of_classes = self.read_u16()?;
                let classes = self.read_indices(number_of_classes)?;
                proof {
                    lemma_cut(s, at as int, at + 2, self.pos as int);
                }
                Ok(Attribute::PermittedSubclasses { number_of_classes, classes })
            },
            _ => {
                let info = self.read_bytes(length as usize)?;
                Ok(Attribute::from_raw(name, info))
            },
        }
    }

    /// Reads an attribute: the index of its name, its declared length and
    /// its body.
    pub fn read_attribute(&mut self) -> (r: Result<AttributeInfo, DecodeError>)
        requires
            old(self).wf(),
        ensures
            Self::reads(
                *old(self),
                *final(self),
                attribute_end(old(self).buf@, old(self).constant_pool@, old(self).pos as int),
                laid_out(r, |a: AttributeInfo| attribute_bytes(a)),
            ),
            r is Ok ==> attribute_formed(old(self).constant_pool@, r->Ok_0),
        decreases old(self).buf@.len() - old(self).pos, 0int,
    {
        let at = self.pos;
        let ghost s = self.buf@;
        let attribute_name_index = self.read_u16()?;
        let attribute_length = self.read_u32()?;
        let name = self.attribute_name_at(attribute_name_index, at)?;
        let info = self.read_body(name, attribute_length)?;
        proof {
            lemma_cut(s, at as int, at + 2, at + 6);
            lemma_cut(s, at as int, at + 6, self.pos as int);
        }
        Ok(AttributeInfo { attribute_name_index, attribute_length, info })
    }

    /// Reads `n` attributes.
    pub fn read_attributes(&mut self, n: u16) -> (r: Result<Vec<AttributeInfo>, DecodeError>)
        requires
            old(self).wf(),
        ensures
            Self::reads(
                *old(self),
                *final(self),
                attributes_end(
                    old(self).buf@,
                    old(self).constant_pool@,
                    old(self).pos as int,
                    n as int,
                ),
                laid_out(r, |v: Vec<AttributeInfo>| attributes_bytes(v@)),
            ),
            r is Ok ==> r->Ok_0@.len() == n,
            r is Ok ==> attributes_formed(old(self).constant_pool@, r->Ok_0@),
        decreases old(self).buf@.len() - old(self).pos, n + 1,
    {
        let ghost pre = *self;
        let ghost s = self.buf@;
        let ghost pool = self.constant_pool@;
        let mut res: Vec<AttributeInfo> = Vec::new();
        let mut k: u16 = 0;
        assert(s.subrange(pre.pos as int, pre.pos as int) =~= Seq::<u8>::empty());
        while k < n
            invariant
                pre == *old(self),
                Self::moved(pre, *self),
                s == pre.buf@,
                pool == pre.constant_pool@,
                k <= n,
                res@.len() == k,
                attributes_formed(pool, res@),
                attributes_bytes(res@) == s.subrange(pre.pos as int, self.pos as int),
                attributes_end(s, pool, pre.pos as int, n as int) == attributes_end(
                    s,
                    pool,
                    self.pos as int,
                    n - k,
                ),
            decreases n - k,
        {
            let ghost at = self.pos;
            let attribute = self.read_attribute()?;
            proof {
                assert(res@.push(attribute).drop_last() =~= res@);
                lemma_cut(s, pre.pos as int, at as int, self.pos as int);
            }
            res.push(attribute);
            k = k + 1;
        }
        Ok(res)
    }

    /// Reads `n` fields.
    pub fn read_fields(&mut self, n: u16) -> (r: Result<Vec<FieldInfo>, DecodeError>)
        requires
            old(self).wf(),
        ensures
            Self::reads(
                *old(self),
                *final(self),
                members_end(
                    old(self).buf@,
                    old(self).constant_pool@,
                    old(self).pos as int,
                    n as int,
                    FieldAccessFlags::ALL,
                ),
                laid_out(r, |v: Vec<FieldInfo>| fields_bytes(v@)),
            ),
            r is Ok ==> r->Ok_0@.len() == n,
            r is Ok ==> fields_formed(old(self).constant_pool@, r->Ok_0@),
    {
        let ghost pre = *self;
        let ghost s = self.buf@;
        let ghost pool = self.constant_pool@;
        let mut fields: Vec<FieldInfo> = Vec::new();
        let mut k: u16 = 0;
        assert(s.subrange(pre.pos as int, pre.pos as int) =~= Seq::<u8>::empty());
        while k < n
            invariant
                pre == *old(self),
                Self::moved(pre, *self),
                s == pre.buf@,
                pool == pre.constant_pool@,
                k <= n,
                fields@.len() == k,
                fields_formed(pool, fields@),
                fields_bytes(fields@) == s.subrange(pre.pos as int, self.pos as int),
                members_end(s, pool, pre.pos as int, n as int, FieldAccessFlags::ALL)
                    == members_end(s, pool, self.pos as int, n - k, FieldAccessFlags::ALL),
            decreases n - k,
        {
            let at = self.pos;
            let bits = self.read_u16()?;
            let access_flags = match FieldAccessFlags::from_bits(bits) {
                Some(flags) => flags,
                None => {
                    return Err(Self::report_error(DecodeErrorKind::InvalidAccessFlags, at));
                },
            };
            let name_index = self.read_u16()?;
            let descriptor_index = self.read_u16()?;
            let attributes_count = self.read_u16()?;
            let attributes = self.read_attributes(attributes_count)?;
            let field = FieldInfo {
                access_flags,
                name_index,
                descriptor_index,
                attributes_count,
                attributes,
            };
            proof {
                assert(fields@.push(field).drop_last() =~= fields@);
                lemma_cut(s, at as int, at + 2, at + 4);
                lemma_cut(s, at as int, at + 4, at + 6);
                lemma_cut(s, at as int, at + 6, at + 8);
                lemma_cut(s, at as int, at + 8, self.pos as int);
                lemma_cut(s, pre.pos as int, at as int, self.pos as int);
            }
            fields.push(field);
            k = k + 1;
        }
        Ok(fields)
    }

    /// Reads `n` methods.
    pub fn read_methods(&mut self, n: u16) -> (r: Result<Vec<MethodInfo>, DecodeError>)
        requires
            old(self).wf(),
        ensures
            Self::reads(
                *old(self),
                *final(self),
                members_end(
                    old(self).buf@,
                    old(self).constant_pool@,
                    old(self).pos as int,
                    n as int,
                    MethodAccessFlags::ALL,
                ),
                laid_out(r, |v: Vec<MethodInfo>| methods_bytes(v@)),
            ),
            r is Ok ==> r->Ok_0@.len() == n,
            r is Ok ==> methods_formed(old(self).constant_pool@, r->Ok_0@),
    {
        let ghost pre = *self;
        let ghost s = self.buf@;
        let ghost pool = self.constant_pool@;
        let mut methods: Vec<MethodInfo> = Vec::new();
        let mut k: u16 = 0;
        assert(s.subrange(pre.pos as int, pre.pos as int) =~= Seq::<u8>::empty());
        while k < n
            invariant
                pre == *old(self),
                Self::moved(pre, *self),
                s == pre.buf@,
                pool == pre.constant_pool@,
                k <= n,
                methods@.len() == k,
                methods_formed(pool, methods@),
                methods_bytes(methods@) == s.subrange(pre.pos as int, self.pos as int),
                members_end(s, pool, pre.pos as int, n as int, MethodAccessFlags::ALL)
                    == members_end(s, pool, self.pos as int, n - k, MethodAccessFlags::ALL),
            decreases n - k,
        {
            let at = self.pos;
            let bits = self.read_u16()?;
            let access_flags = match MethodAccessFlags::from_bits(bits) {
                Some(flags) => flags,
                None => {
                    return Err(Self::report_error(DecodeErrorKind::InvalidAccessFlags, at));
                },
            };
            let name_index = self.read_u16()?;
            let descriptor_index = self.read_u16()?;
            let attributes_count = self.read_u16()?;
            let attributes = self.read_attributes(attributes_count)?;
            let method = MethodInfo {
                access_flags,
                name_index,
                descriptor_index,
                attributes_count,
                attributes,
            };
            proof {
                assert(methods@.push(method).drop_last() =~= methods@);
                lemma_cut(s, at as int, at + 2, at + 4);
                lemma_cut(s, at as int, at + 4, at + 6);
                lemma_cut(s, at as int, at + 6, at + 8);
                lemma_cut(s, at as int, at + 8, self.pos as int);
                lemma_cut(s, pre.pos as int, at as int, self.pos as int);
            }
            methods.push(method);
            k = k + 1;
        }
        Ok(methods)
    }

    /// The class entries of the pool that `indices` point to.
    pub open spec fn interfaces_of(
        pool: Seq<ConstantPoolInfo>,
        indices: Seq<u16>,
        entries: Seq<ConstantPoolInfo>,
    ) -> bool {
        &&& entries.len() == indices.len()
        &&& forall|k: int|
            #![trigger entries[k]]
            0 <= k < indices.len() ==> Self::interface_at(pool, indices[k], entries[k])
    }

    /// `entry` is the class entry of the pool at `index`.
    pub open spec fn interface_at(
        pool: Seq<ConstantPoolInfo>,
        index: u16,
        entry: ConstantPoolInfo,
    ) -> bool {
        &&& index < pool.len()
        &&& pool[index as int] is Class
        &&& entry == pool[index as int]
    }

    /// Reads `n` interface indices and looks up the class entries that they
    /// point to.  Returns the indices and the entries.
    pub fn read_interfaces(&mut self, n: u16) -> (r: Result<
        (Vec<u16>, Vec<ConstantPoolInfo>),
        DecodeError,
    >)
        requires
            old(self).wf(),
        ensures
            Self::reads(
                *old(self),
                *final(self),
                interfaces_end(
                    old(self).buf@,
                    old(self).constant_pool@,
                    old(self).pos as int,
                    n as int,
                ),
                laid_out(r, |p: (Vec<u16>, Vec<ConstantPoolInfo>)| indices_bytes(p.0@)),
            ),
            r is Ok ==> Self::interfaces_of(old(self).constant_pool@, r->Ok_0.0@, r->Ok_0.1@),
            r is Ok ==> r->Ok_0.0@.len() == n,
    {
        let ghost pre = *self;
        let ghost s = self.buf@;
        let ghost pool = self.constant_pool@;
        let mut indices: Vec<u16> = Vec::new();
        let mut interfaces: Vec<ConstantPoolInfo> = Vec::new();
        let mut k: u16 = 0;
        assert(s.subrange(pre.pos as int, pre.pos as int) =~= Seq::<u8>::empty());
        while k < n
            invariant
                pre == *old(self),
                Self::moved(pre, *self),
                s == pre.buf@,
                pool == pre.constant_pool@,
                k <= n,
                indices@.len() == k,
                indices_bytes(indices@) == s.subrange(pre.pos as int, self.pos as int),
                Self::interfaces_of(pool, indices@, interfaces@),
                interfaces_end(s, pool, pre.pos as int, n as int) == interfaces_end(
                    s,
                    pool,
                    self.pos as int,
                    n - k,
                ),
            decreases n - k,
        {
            let at = self.pos;
            let index = self.read_u16()?;
            if index as usize >= self.constant_pool.len() {
                return Err(Self::report_error(DecodeErrorKind::InvalidPoolIndex, at));
            }
            let entry = match &self.constant_pool[index as usize] {
                ConstantPoolInfo::Class { name_index } => ConstantPoolInfo::Class {
                    name_index: *name_index,
                },
                _ => {
                    return Err(Self::report_error(DecodeErrorKind::ExpectedClassTag, at));
                },
            };
            proof {
                assert(indices@.push(index).drop_last() =~= indices@);
                lemma_cut(s, pre.pos as int, at as int, self.pos as int);
            }
            let ghost old_indices = indices@;
            let ghost old_interfaces = interfaces@;
            assert(entry == pool[index as int]);
            indices.push(index);
            interfaces.push(entry);
            assert forall|j: int| 0 <= j < indices@.len() implies Self::interface_at(
                pool,
                indices@[j],
                #[trigger] interfaces@[j],
            ) by {
                if j < old_indices.len() {
                    assert(interfaces@[j] == old_interfaces[j]);
                    assert(indices@[j] == old_indices[j]);
                }
            }
            k = k + 1;
        }
        Ok((indices, interfaces))
    }

    /// What `read` must return on the input of `pre`.
    ///
    /// On success the head of the class file (magic word, versions and
    /// constant pool) and the part behind it end where the format says,
    /// and laid out as bytes they are the bytes that the reader passed.  On
    /// failure the failure is the one that the format names: either for
    /// the head, or, with the head decoded and its pool kept in the reader,
    /// for the part behind it.
    pub open spec fn decoded(
        pre: ClassFileReader,
        post: ClassFileReader,
        r: Result<ClassFile, DecodeError>,
    ) -> bool {
        decodes(pre.buf@, pre.pos as int, post.pos as int, post.constant_pool@, r)
    }

    /// Reads the entries of a constant pool of `count` slots.
    pub(crate) fn read_pool(&mut self, count: u16) -> (r: Result<Vec<ConstantPoolInfo>, DecodeError>)
        requires
            old(self).wf(),
            count >= 1,
        ensures
            Self::reads(
                *old(self),
                *final(self),
                pool_end(old(self).buf@, old(self).pos as int, 1, count as int),
                laid_out(r, |v: Vec<ConstantPoolInfo>| pool_bytes(v@)),
            ),
            r is Ok ==> pool_layout(r->Ok_0@) && r->Ok_0@.len() == count && pool_fits(r->Ok_0@),
    {
        let ghost pre = *self;
        let ghost s = self.buf@;
        let mut pool: Vec<ConstantPoolInfo> = Vec::new();
        pool.push(ConstantPoolInfo::Unusable);
        let mut index: u16 = 1;
        proof {
            assert(s.subrange(pre.pos as int, pre.pos as int) =~= Seq::<u8>::empty());
            assert(pool@.drop_last() =~= Seq::<ConstantPoolInfo>::empty());
            assert(pool_bytes(Seq::<ConstantPoolInfo>::empty()) =~= Seq::<u8>::empty());
            assert(pool_bytes(pool@) =~= Seq::<u8>::empty());
        }
        while index < count
            invariant
                pre == *old(self),
                Self::moved(pre, *self),
                s == pre.buf@,
                1 <= index <= count,
                pool@.len() == index,
                pool_layout(pool@),
                pool_fits(pool@),
                !is_wide_entry(pool@.last()),
                pool_bytes(pool@) == s.subrange(pre.pos as int, self.pos as int),
                pool_end(s, pre.pos as int, 1, count as int) == pool_end(
                    s,
                    self.pos as int,
                    index as int,
                    count as int,
                ),
            decreases count - index,
        {
            let at = self.pos;
            let tag = self.read_u8()?;
            let entry = self.constant_tag(tag)?;
            let ghost before = pool@;
            if tag == 5 || tag == 6 {
                if index >= count - 1 {
                    return Err(Self::report_error(DecodeErrorKind::InvalidPoolIndex, at));
                }
                pool.push(entry);
                let ghost one = pool@;
                pool.push(ConstantPoolInfo::Unusable);
                proof {
                    assert(one.drop_last() =~= before);
                    assert(pool_bytes(one) =~= pool_bytes(before) + entry_bytes(entry));
                    assert(pool@.drop_last() =~= one);
                    assert(pool@.last() is Unusable);
                    assert(pool_bytes(pool@) =~= pool_bytes(one));
                    lemma_cut(s, pre.pos as int, at as int, self.pos as int);
                }
                index = index + 2;
            } else {
                pool.push(entry);
                proof {
                    assert(pool@.drop_last() =~= before);
                    lemma_cut(s, pre.pos as int, at as int, self.pos as int);
                }
                index = index + 1;
            }
        }
        Ok(pool)
    }

    /// Reads the part of a class file behind its constant pool, which the
    /// reader holds, and puts it together with the head that the reader has
    /// passed: the magic word, the versions and the pool's slot count.
    pub fn read_tail(
        &mut self,
        magic: u32,
        minor_version: u16,
        major_version: u16,
        constant_pool_count: u16,
    ) -> (r: Result<ClassFile, DecodeError>)
        requires
            old(self).wf(),
        ensures
            final(self).buf == old(self).buf,
            final(self).wf(),
            old(self).pos <= final(self).pos,
            r is Err ==> final(self).constant_pool == old(self).constant_pool,
            r is Err ==> tail_end(old(self).buf@, old(self).constant_pool@, old(self).pos as int)
                == Err::<int, DecodeError>(r->Err_0),
            r is Ok ==> tail_end(old(self).buf@, old(self).constant_pool@, old(self).pos as int)
                == Ok::<int, DecodeError>(final(self).pos as int),
            r is Ok ==> tail_bytes(r->Ok_0) == old(self).buf@.subrange(
                old(self).pos as int,
                final(self).pos as int,
            ),
            r is Ok ==> r->Ok_0.constant_pool == old(self).constant_pool,
            r is Ok ==> r->Ok_0.magic == magic && r->Ok_0.minor_version == minor_version
                && r->Ok_0.major_version == major_version && r->Ok_0.constant_pool_count
                == constant_pool_count,
            r is Ok ==> Self::interfaces_of(
                old(self).constant_pool@,
                r->Ok_0.interface_indices@,
                r->Ok_0.interfaces@,
            ),
            r is Ok ==> tail_formed(r->Ok_0),
    {
        let ghost s = self.buf@;
        let ghost p = self.pos;
        let at = self.pos;
        let bits = self.read_u16()?;
        let access_flags = match ClassAccessFlags::from_bits(bits) {
            Some(flags) => flags,
            None => {
                return Err(Self::report_error(DecodeErrorKind::InvalidAccessFlags, at));
            },
        };
        let this_class = self.read_u16()?;
        let super_class = self.read_u16()?;
        let interfaces_count = self.read_u16()?;
        let (interface_indices, interfaces) = self.read_interfaces(interfaces_count)?;
        let ghost f = self.pos;
        let fields_count = self.read_u16()?;
        let fields = self.read_fields(fields_count)?;
        let ghost m = self.pos;
        let methods_count = self.read_u16()?;
        let methods = self.read_methods(methods_count)?;
        let ghost a = self.pos;
        let attributes_count = self.read_u16()?;
        let attributes = self.read_attributes(attributes_count)?;
        proof {
            lemma_cut(s, p as int, p + 2, p + 4);
            lemma_cut(s, p as int, p + 4, p + 6);
            lemma_cut(s, p as int, p + 6, p + 8);
            lemma_cut(s, p as int, p + 8, f as int);
            lemma_cut(s, p as int, f as int, f + 2);
            lemma_cut(s, p as int, f + 2, m as int);
            lemma_cut(s, p as int, m as int, m + 2);
            lemma_cut(s, p as int, m + 2, a as int);
            lemma_cut(s, p as int, a as int, a + 2);
            lemma_cut(s, p as int, a + 2, self.pos as int);
        }
        let mut constant_pool: Vec<ConstantPoolInfo> = Vec::new();
        core::mem::swap(&mut self.constant_pool, &mut constant_pool);
        Ok(
            ClassFile {
                magic,
                minor_version,
                major_version,
                constant_pool_count,
                constant_pool,
                access_flags,
                this_class,
                super_class,
                interfaces_count,
                interface_indices,
                interfaces,
                fields_count,
                fields,
                methods_count,
                methods,
                attributes_count,
                attributes,
            },
        )
    }

    /// Decodes the class file that starts at the reader's position.
    ///
    /// On success the records of the result, laid out as bytes in the order
    /// of the format, are the bytes that the reader passed.  The reader
    /// fails exactly where the format names a failure: the input ends
    /// inside a record, a tag names no record, the bytes of a Utf8 entry
    /// are not UTF-8, an access-flag word has an unknown bit, or an index
    /// that the reader follows points outside the pool or to an entry of
    /// the wrong kind.
    pub fn read(&mut self) -> (r: Result<ClassFile, DecodeError>)
        requires
            old(self).wf(),
        ensures
            final(self).buf == old(self).buf,
            final(self).wf(),
            Self::decoded(*old(self), *final(self), r),
    {
        let ghost s = self.buf@;
        let start = self.pos;
        let magic = self.read_u32()?;
        let minor_version = self.read_u16()?;
        let major_version = self.read_u16()?;
        let constant_pool_count = self.read_u16()?;
        if constant_pool_count == 0 {
            return Err(Self::report_error(DecodeErrorKind::InvalidPoolIndex, start + 8));
        }
        let constant_pool = self.read_pool(constant_pool_count)?;
        let ghost p = self.pos;
        self.constant_pool = constant_pool;
        proof {
            lemma_cut(s, start as int, start + 4, start + 6);
            lemma_cut(s, start as int, start + 6, start + 8);
            lemma_cut(s, start as int, start + 8, start + 10);
            lemma_cut(s, start as int, start + 10, p as int);
        }
        self.read_tail(magic, minor_version, major_version, constant_pool_count)
    }
}

} // verus!

verus! {

impl AttributeName {
    /// The attribute that `name` names.
    pub fn from_name(name: &str) -> (r: AttributeName)
        ensures
            r == AttributeName::of(name@),
    {
        if same_text(name, "ConstantValue") {
            AttributeName::ConstantValue
        } else if same_text(name, "Code") {
            AttributeName::Code
        } else if same_text(name, "StackMapTable") {
            AttributeName::StackMapTable
        } else if same_text(name, "SourceFile") {
            AttributeName::SourceFile
        } else if same_text(name, "LineNumberTable") {
            AttributeName::LineNumberTable
        } else if same_text(name, "BootstrapMethods") {
            AttributeName::BootstrapMethods
        } else if same_text(name, "NestHost") {
            AttributeName::NestHost
        } else if same_text(name, "NestMembers") {
            AttributeName::NestMembers
        } else if same_text(name, "PermittedSubclasses") {
            AttributeName::PermittedSubclasses
        } else if same_text(name, "Exceptions") {
            AttributeName::Exceptions
        } else if same_text(name, "InnerClasses") {
            AttributeName::InnerClasses
        } else if same_text(name, "EnclosingMethod") {
            AttributeName::EnclosingMethod
        } else if same_text(name, "Synthetic") {
            AttributeName::Synthetic
        } else if same_text(name, "Signature") {
            AttributeName::Signature
        } else if same_text(name, "SourceDebugExtension") {
            AttributeName::SourceDebugExtension
        } else if same_text(name, "LocalVariableTable") {
            AttributeName::LocalVariableTable
        } else if same_text(name, "LocalVariableTypeTable") {
            AttributeName::LocalVariableTypeTable
        } else if same_text(name, "Deprecated") {
            AttributeName::Deprecated
        } else if same_text(name, "RuntimeVisibleAnnotations") {
            AttributeName::RuntimeVisibleAnnotations
        } else if same_text(name, "RuntimeInvisibleAnnotations") {
            AttributeName::RuntimeInvisibleAnnotations
        } else if same_text(name, "RuntimeVisibleParameterAnnotations") {
            AttributeName::RuntimeVisibleParameterAnnotations
        } else if same_text(name, "RuntimeInvisibleParameterAnnotations") {
            AttributeName::RuntimeInvisibleParameterAnnotations
        } else if same_text(name, "RuntimeVisibleTypeAnnotations") {
            AttributeName::RuntimeVisibleTypeAnnotations
        } else if same_text(name, "RuntimeInvisibleTypeAnnotations") {
            AttributeName::RuntimeInvisibleTypeAnnotations
        } else if same_text(name, "AnnotationDefault") {
            AttributeName::AnnotationDefault
        } else if same_text(name, "MethodParameters") {
            AttributeName::MethodParameters
        } else if same_text(name, "Module") {
            AttributeName::Module
        } else if same_text(name, "ModulePackages") {
            AttributeName::ModulePackages
        } else if same_text(name, "ModuleMainClass") {
            AttributeName::ModuleMainClass
        } else if same_text(name, "Record") {
            AttributeName::Record
        } else {
            AttributeName::Unknown
        }
    }
}

} // verus!
