use rjvm::reader::{ClassAccessFlags, ConstantPoolInfo};
use rjvm::vm::class::Class;
use rjvm::vm::constant_pool::VMConstantPool;
use rjvm::vm::floats::{FloatAnswer, FloatOp, FloatRequest};
use rjvm::vm::table::NameTable;
use rjvm::vm::jobject::JObjectKind;
use rjvm::vm::jthread::JThread;
use rjvm::vm::jvalue::JValue;
use rjvm::vm::jvm::{JVMError, JVM};
use rjvm::vm::machine_effect::Progress;
use rjvm::vm::method::Method;
use rjvm::vm::opcode::Opcode;
use rjvm::vm::stack_frame::StackFrame;
use std::rc::Rc;

const MAIN: &str = "main";
const MAIN_DESCRIPTOR: &str = "([Ljava/lang/String;)V";

fn utf8(text: &str) -> Vec<u8> {
    let mut out = vec![1u8];
    out.extend_from_slice(&(text.len() as u16).to_be_bytes());
    out.extend_from_slice(text.as_bytes());
    out
}

fn class_entry(name_index: u16) -> Vec<u8> {
    let mut out = vec![7u8];
    out.extend_from_slice(&name_index.to_be_bytes());
    out
}

fn string_entry(utf8_index: u16) -> Vec<u8> {
    let mut out = vec![8u8];
    out.extend_from_slice(&utf8_index.to_be_bytes());
    out
}

fn name_and_type(name_index: u16, descriptor_index: u16) -> Vec<u8> {
    let mut out = vec![12u8];
    out.extend_from_slice(&name_index.to_be_bytes());
    out.extend_from_slice(&descriptor_index.to_be_bytes());
    out
}

fn member_ref(tag: u8, class_index: u16, name_and_type_index: u16) -> Vec<u8> {
    let mut out = vec![tag];
    out.extend_from_slice(&class_index.to_be_bytes());
    out.extend_from_slice(&name_and_type_index.to_be_bytes());
    out
}

/// A class file of the class `Main` with one field `x:I` and the method
/// `main` with the given code.  The pool is:
/// 1 Utf8 Main, 2 Class 1, 3 Utf8 java/lang/Object, 4 Class 3, 5 Utf8 main,
/// 6 Utf8 ([Ljava/lang/String;)V, 7 Utf8 Code, 8 Utf8 x, 9 Utf8 I,
/// 10 NameAndType x:I, 11 FieldRef Main.x:I, 12 Utf8 <init>, 13 Utf8 ()V,
/// 14 NameAndType <init>:()V, 15 MethodRef java/lang/Object.<init>:()V,
/// 16 Utf8 hello, 17 String 16, 18 Utf8 Other, 19 Class 18.
fn main_class(code: &[u8], max_stack: u16, max_locals: u16) -> Vec<u8> {
    let pool: Vec<Vec<u8>> = vec![
        utf8("Main"),
        class_entry(1),
        utf8("java/lang/Object"),
        class_entry(3),
        utf8(MAIN),
        utf8(MAIN_DESCRIPTOR),
        utf8("Code"),
        utf8("x"),
        utf8("I"),
        name_and_type(8, 9),
        member_ref(9, 2, 10),
        utf8("<init>"),
        utf8("()V"),
        name_and_type(12, 13),
        member_ref(10, 4, 14),
        utf8("hello"),
        string_entry(16),
        utf8("Other"),
        class_entry(18),
    ];
    let mut out = vec![0xCA, 0xFE, 0xBA, 0xBE, 0, 0, 0, 52];
    out.extend_from_slice(&((pool.len() + 1) as u16).to_be_bytes());
    for entry in &pool {
        out.extend_from_slice(entry);
    }
    out.extend_from_slice(&0x0021u16.to_be_bytes());
    out.extend_from_slice(&2u16.to_be_bytes());
    out.extend_from_slice(&4u16.to_be_bytes());
    out.extend_from_slice(&0u16.to_be_bytes());
    // one field: x:I
    out.extend_from_slice(&1u16.to_be_bytes());
    out.extend_from_slice(&0x0001u16.to_be_bytes());
    out.extend_from_slice(&8u16.to_be_bytes());
    out.extend_from_slice(&9u16.to_be_bytes());
    out.extend_from_slice(&0u16.to_be_bytes());
    // one method: main
    out.extend_from_slice(&1u16.to_be_bytes());
    out.extend_from_slice(&0x0009u16.to_be_bytes());
    out.extend_from_slice(&5u16.to_be_bytes());
    out.extend_from_slice(&6u16.to_be_bytes());
    out.extend_from_slice(&1u16.to_be_bytes());
    out.extend_from_slice(&7u16.to_be_bytes());
    out.extend_from_slice(&((12 + code.len()) as u32).to_be_bytes());
    out.extend_from_slice(&max_stack.to_be_bytes());
    out.extend_from_slice(&max_locals.to_be_bytes());
    out.extend_from_slice(&(code.len() as u32).to_be_bytes());
    out.extend_from_slice(code);
    out.extend_from_slice(&0u16.to_be_bytes());
    out.extend_from_slice(&0u16.to_be_bytes());
    // no class attributes
    out.extend_from_slice(&0u16.to_be_bytes());
    out
}

/// A machine with `Main` loaded and started, and the thread that runs it,
/// on top of a caller that can take one returned value.
fn started(code: &[u8], max_stack: u16, max_locals: u16) -> (JVM, JThread) {
    let mut jvm = JVM::new();
    jvm.class_loader.load_class("Main", main_class(code, max_stack, max_locals)).unwrap();
    assert_eq!(jvm.start("Main"), Ok(Progress::Running));
    let mut thread = jvm.threads.pop().unwrap();
    let caller = StackFrame::new(
        0,
        Rc::new(Method {
            name: String::from("caller"),
            descriptor: String::from("()V"),
            code: vec![0x00],
            max_locals: 0,
            max_stack: 1,
        }),
    );
    let callee = thread.stack.pop().unwrap();
    thread.stack.push(caller);
    thread.stack.push(callee);
    (jvm, thread)
}

/// Runs the thread until its top frame has returned to the caller, and
/// returns what the caller holds on its stack.
fn returned(jvm: &mut JVM, thread: &mut JThread) -> Vec<JValue> {
    let mut turns = 0;
    while thread.stack.len() >= 2 {
        assert_eq!(jvm.step(thread), Ok(Progress::Running));
        turns += 1;
        assert!(turns < 10_000);
    }
    thread.stack[0].operand_stack.clone()
}

fn frame_with(code: Vec<u8>, max_stack: u16, max_locals: u16) -> StackFrame {
    StackFrame::new(
        0,
        Rc::new(Method {
            name: String::from("m"),
            descriptor: String::from("()V"),
            code,
            max_locals,
            max_stack,
        }),
    )
}

#[test]
fn integer_math_leaves_twenty_five_on_the_stack() {
    // iconst_2, iconst_3, iadd, istore_1, iconst_5, iload_1, imul, ireturn
    let code = [0x05, 0x06, 0x60, 0x3C, 0x08, 0x1B, 0x68, 0xAC];
    let (mut jvm, mut thread) = started(&code, 2, 2);
    for _ in 0..7 {
        assert_eq!(jvm.step(&mut thread), Ok(Progress::Running));
    }
    assert_eq!(thread.stack[1].operand_stack, vec![JValue::Int(25)]);
    assert_eq!(thread.stack[1].pc, 7);
    assert_eq!(returned(&mut jvm, &mut thread), vec![JValue::Int(25)]);
}

#[test]
fn integer_math_runs_to_the_end() {
    let code = [0x05, 0x06, 0x60, 0x3C, 0x08, 0x1B, 0x68, 0xAC];
    let mut jvm = JVM::new();
    jvm.class_loader.load_class("Main", main_class(&code, 2, 2)).unwrap();
    assert_eq!(jvm.run_class("Main", 100), Ok(Progress::Finished));
    assert_eq!(jvm.threads.len(), 1);
    assert!(jvm.threads[0].stack.is_empty());
}

#[test]
fn branch_on_a_non_zero_value_is_not_taken() {
    // iconst_1, ifeq +5, iconst_7, ireturn, iconst_9, ireturn
    let code = [0x04, 0x99, 0x00, 0x05, 0x10, 0x07, 0xAC, 0x10, 0x09, 0xAC];
    let (mut jvm, mut thread) = started(&code, 1, 1);
    assert_eq!(returned(&mut jvm, &mut thread), vec![JValue::Int(7)]);
}

#[test]
fn branch_on_zero_is_taken() {
    // iconst_0, ifeq +6, bipush 7, ireturn, bipush 9, ireturn
    let code = [0x03, 0x99, 0x00, 0x06, 0x10, 0x07, 0xAC, 0x10, 0x09, 0xAC];
    let (mut jvm, mut thread) = started(&code, 1, 1);
    assert_eq!(jvm.step(&mut thread), Ok(Progress::Running));
    assert_eq!(jvm.step(&mut thread), Ok(Progress::Running));
    assert_eq!(thread.stack[1].pc, 7);
    assert_eq!(returned(&mut jvm, &mut thread), vec![JValue::Int(9)]);
}

#[test]
fn tableswitch_lands_at_the_selected_offset() {
    // 0: iconst_1
    // 1: tableswitch, padded to 4; default +40, low 0, high 2, offsets +28 +31 +34
    let mut code = vec![0x04, 0xAA, 0, 0];
    for word in [40i32, 0, 2, 28, 31, 34] {
        code.extend_from_slice(&word.to_be_bytes());
    }
    while code.len() < 29 {
        code.push(0x00);
    }
    // 29, 32, 35: bipush k, ireturn
    for k in [10u8, 11, 12] {
        code.extend_from_slice(&[0x10, k, 0xAC]);
    }
    while code.len() < 41 {
        code.push(0x00);
    }
    code.extend_from_slice(&[0x10, 99, 0xAC]);
    let (mut jvm, mut thread) = started(&code, 1, 1);
    assert_eq!(jvm.step(&mut thread), Ok(Progress::Running));
    assert_eq!(thread.stack[1].pc, 1);
    assert_eq!(jvm.step(&mut thread), Ok(Progress::Running));
    assert_eq!(thread.stack[1].pc, 1 + 31);
    assert_eq!(returned(&mut jvm, &mut thread), vec![JValue::Int(11)]);
}

#[test]
fn tableswitch_takes_the_default_for_a_key_out_of_range() {
    let mut code = vec![0x08, 0xAA, 0, 0];
    for word in [40i32, 0, 2, 28, 31, 34] {
        code.extend_from_slice(&word.to_be_bytes());
    }
    while code.len() < 41 {
        code.push(0x00);
    }
    code.extend_from_slice(&[0x10, 99, 0xAC]);
    let (mut jvm, mut thread) = started(&code, 1, 1);
    assert_eq!(jvm.step(&mut thread), Ok(Progress::Running));
    assert_eq!(jvm.step(&mut thread), Ok(Progress::Running));
    assert_eq!(thread.stack[1].pc, 41);
}

#[test]
fn lookupswitch_selects_by_key() {
    // 0: bipush 20; 2: lookupswitch, padded to 4: default +30, 2 pairs (10 -> +22), (20 -> +26)
    let mut code = vec![0x10, 20, 0xAB, 0];
    for word in [30i32, 2, 10, 22, 20, 26] {
        code.extend_from_slice(&word.to_be_bytes());
    }
    while code.len() < 40 {
        code.push(0x00);
    }
    let (mut jvm, mut thread) = started(&code, 1, 1);
    assert_eq!(jvm.step(&mut thread), Ok(Progress::Running));
    assert_eq!(jvm.step(&mut thread), Ok(Progress::Running));
    assert_eq!(thread.stack[1].pc, 2 + 26);
    assert!(thread.stack[1].operand_stack.is_empty());
}

#[test]
fn object_construction_and_field_read() {
    // new Main, dup, dup, invokespecial Object.<init>, bipush 42, putfield x,
    // getfield x, ireturn
    let code = [
        0xBB, 0x00, 0x02, 0x59, 0x59, 0xB7, 0x00, 0x0F, 0x10, 42, 0xB5, 0x00, 0x0B, 0xB4, 0x00,
        0x0B, 0xAC,
    ];
    let (mut jvm, mut thread) = started(&code, 3, 1);
    assert_eq!(returned(&mut jvm, &mut thread), vec![JValue::Int(42)]);
    assert_eq!(jvm.heap.len(), 1);
    assert_eq!(jvm.heap[0].get_field("x:I"), Some(JValue::Int(42)));
}

#[test]
fn a_new_object_has_its_fields_at_zero() {
    // new Main, getfield x, ireturn
    let code = [0xBB, 0x00, 0x02, 0xB4, 0x00, 0x0B, 0xAC];
    let (mut jvm, mut thread) = started(&code, 1, 1);
    assert_eq!(returned(&mut jvm, &mut thread), vec![JValue::Int(0)]);
}

#[test]
fn array_round_trip() {
    // bipush 4, newarray int, dup, iconst_0, bipush 99, iastore, iconst_0, iaload, ireturn
    let code = [0x10, 4, 0xBC, 10, 0x59, 0x03, 0x10, 99, 0x4F, 0x03, 0x2E, 0xAC];
    let (mut jvm, mut thread) = started(&code, 4, 1);
    assert_eq!(returned(&mut jvm, &mut thread), vec![JValue::Int(99)]);
    match &jvm.heap[0].kind {
        JObjectKind::ArrayInt(elements) => assert_eq!(elements, &vec![99, 0, 0, 0]),
        other => panic!("not an array of integers: {:?}", other),
    }
}

#[test]
fn array_length_is_pushed() {
    // bipush 4, newarray long, arraylength, ireturn
    let code = [0x10, 4, 0xBC, 11, 0xBE, 0xAC];
    let (mut jvm, mut thread) = started(&code, 1, 1);
    assert_eq!(returned(&mut jvm, &mut thread), vec![JValue::Int(4)]);
}

#[test]
fn array_index_at_the_length_faults() {
    // bipush 4, newarray int, iconst_4, iaload
    let code = [0x10, 4, 0xBC, 10, 0x07, 0x2E];
    let (mut jvm, mut thread) = started(&code, 2, 1);
    for _ in 0..3 {
        assert_eq!(jvm.step(&mut thread), Ok(Progress::Running));
    }
    let before = thread.stack[1].operand_stack.clone();
    assert_eq!(jvm.step(&mut thread), Err(JVMError::ArrayIndexOutOfBounds));
    assert_eq!(thread.stack[1].operand_stack, before);
    assert_eq!(thread.stack[1].pc, 5);
}

#[test]
fn negative_array_index_faults() {
    // bipush 4, newarray int, iconst_m1, iconst_1, iastore
    let code = [0x10, 4, 0xBC, 10, 0x02, 0x04, 0x4F];
    let (mut jvm, mut thread) = started(&code, 3, 1);
    for _ in 0..4 {
        assert_eq!(jvm.step(&mut thread), Ok(Progress::Running));
    }
    assert_eq!(jvm.step(&mut thread), Err(JVMError::ArrayIndexOutOfBounds));
}

#[test]
fn every_index_below_the_length_is_accessible() {
    for index in 0..4u8 {
        // bipush 4, newarray int, dup, bipush index, bipush 50+index, iastore,
        // bipush index, iaload, ireturn
        let code = [
            0x10, 4, 0xBC, 10, 0x59, 0x10, index, 0x10, 50 + index, 0x4F, 0x10, index, 0x2E, 0xAC,
        ];
        let (mut jvm, mut thread) = started(&code, 4, 1);
        assert_eq!(returned(&mut jvm, &mut thread), vec![JValue::Int(50 + index as i32)]);
    }
}

#[test]
fn negative_array_size_faults() {
    // iconst_m1, newarray int
    let code = [0x02, 0xBC, 10];
    let (mut jvm, mut thread) = started(&code, 1, 1);
    assert_eq!(jvm.step(&mut thread), Ok(Progress::Running));
    assert_eq!(jvm.step(&mut thread), Err(JVMError::NegativeArraySize));
    assert_eq!(jvm.heap.len(), 0);
}

#[test]
fn array_load_on_null_faults() {
    // aconst_null, iconst_0, iaload
    let code = [0x01, 0x03, 0x2E];
    let (mut jvm, mut thread) = started(&code, 2, 1);
    assert_eq!(jvm.step(&mut thread), Ok(Progress::Running));
    assert_eq!(jvm.step(&mut thread), Ok(Progress::Running));
    assert_eq!(jvm.step(&mut thread), Err(JVMError::NullDereference));
}

#[test]
fn getfield_on_null_faults() {
    // aconst_null, getfield x
    let code = [0x01, 0xB4, 0x00, 0x0B];
    let (mut jvm, mut thread) = started(&code, 1, 1);
    assert_eq!(jvm.step(&mut thread), Ok(Progress::Running));
    assert_eq!(jvm.step(&mut thread), Err(JVMError::NullDereference));
}

#[test]
fn byte_array_store_keeps_the_low_eight_bits() {
    // iconst_1, newarray byte, dup, iconst_0, sipush 0x1FF, bastore, iconst_0, baload, ireturn
    let code = [0x04, 0xBC, 8, 0x59, 0x03, 0x11, 0x01, 0xFF, 0x54, 0x03, 0x33, 0xAC];
    let (mut jvm, mut thread) = started(&code, 4, 1);
    assert_eq!(returned(&mut jvm, &mut thread), vec![JValue::Int(-1)]);
}

#[test]
fn boolean_array_store_keeps_the_lowest_bit() {
    // iconst_1, newarray boolean, dup, iconst_0, iconst_3, bastore, iconst_0, baload, ireturn
    let code = [0x04, 0xBC, 4, 0x59, 0x03, 0x06, 0x54, 0x03, 0x33, 0xAC];
    let (mut jvm, mut thread) = started(&code, 4, 1);
    assert_eq!(returned(&mut jvm, &mut thread), vec![JValue::Int(1)]);
}

#[test]
fn char_array_store_keeps_the_low_sixteen_bits() {
    // iconst_1, newarray char, dup, iconst_0, iconst_m1, castore, iconst_0, caload, ireturn
    let code = [0x04, 0xBC, 5, 0x59, 0x03, 0x02, 0x55, 0x03, 0x34, 0xAC];
    let (mut jvm, mut thread) = started(&code, 4, 1);
    assert_eq!(returned(&mut jvm, &mut thread), vec![JValue::Int(0xFFFF)]);
}

#[test]
fn reference_array_holds_nulls_that_cannot_be_loaded() {
    // iconst_2, anewarray Main, iconst_0, aaload
    let code = [0x05, 0xBD, 0x00, 0x02, 0x03, 0x32];
    let (mut jvm, mut thread) = started(&code, 2, 1);
    for _ in 0..3 {
        assert_eq!(jvm.step(&mut thread), Ok(Progress::Running));
    }
    let handle = jvm.class_loader.find_class("[LMain;").unwrap();
    assert_eq!(jvm.heap[0].class, handle);
    assert_eq!(jvm.class_loader.classes[handle].name, "[LMain;");
    assert_eq!(jvm.step(&mut thread), Err(JVMError::NullDereference));
}

#[test]
fn string_constants_are_interned() {
    // ldc 17, ldc 17, if_acmpeq +5, iconst_0, ireturn, iconst_1, ireturn
    let code = [0x12, 17, 0x12, 17, 0xA5, 0x00, 0x05, 0x03, 0xAC, 0x04, 0xAC];
    let (mut jvm, mut thread) = started(&code, 2, 1);
    assert_eq!(jvm.step(&mut thread), Ok(Progress::Running));
    assert_eq!(jvm.step(&mut thread), Ok(Progress::Running));
    let stack = thread.stack[1].operand_stack.clone();
    assert_eq!(stack[0], stack[1]);
    assert_eq!(stack[0], JValue::Reference(1));
    assert_eq!(returned(&mut jvm, &mut thread), vec![JValue::Int(1)]);
    assert_eq!(jvm.heap.len(), 2);
    match &jvm.heap[0].kind {
        JObjectKind::ArrayChar(units) => {
            assert_eq!(units, &"hello".encode_utf16().collect::<Vec<u16>>())
        },
        other => panic!("not an array of characters: {:?}", other),
    }
    assert_eq!(jvm.heap[1].get_field("value:[C"), Some(JValue::Reference(0)));
    assert_eq!(jvm.interned_strings.get("hello"), Some(&1));
}

#[test]
fn interning_encodes_characters_outside_the_basic_plane_as_pairs() {
    let mut jvm = JVM::new();
    let handle = jvm.make_java_string(String::from("a\u{1F600}")).unwrap();
    assert_eq!(handle, 1);
    match &jvm.heap[0].kind {
        JObjectKind::ArrayChar(units) => assert_eq!(units, &vec![0x61, 0xD83D, 0xDE00]),
        other => panic!("not an array of characters: {:?}", other),
    }
    assert_eq!(jvm.make_java_string(String::from("a\u{1F600}")), Ok(1));
    assert_eq!(jvm.heap.len(), 2);
}

#[test]
fn a_missing_class_is_asked_for_and_then_found() {
    // new Other, areturn
    let code = [0xBB, 0x00, 0x13, 0xB0];
    let (mut jvm, mut thread) = started(&code, 1, 1);
    assert_eq!(jvm.step(&mut thread), Ok(Progress::NeedClass(String::from("Other"))));
    assert_eq!(thread.stack[1].pc, 0);
    assert!(thread.stack[1].operand_stack.is_empty());
    jvm.class_loader.load_class("Other", main_class(&[0xB1], 0, 1)).unwrap();
    assert_eq!(jvm.step(&mut thread), Ok(Progress::Running));
    assert_eq!(thread.stack[1].operand_stack, vec![JValue::Reference(0)]);
    assert_eq!(thread.stack[1].pc, 3);
}

#[test]
fn starting_a_class_that_is_not_loaded_asks_for_it() {
    let mut jvm = JVM::new();
    assert_eq!(jvm.run_class("Main", 10), Ok(Progress::NeedClass(String::from("Main"))));
    assert!(jvm.threads.is_empty());
}

#[test]
fn starting_a_class_without_main_fails() {
    let mut jvm = JVM::new();
    assert_eq!(jvm.run_class("java/lang/Object", 10), Err(JVMError::MissingMember));
}

#[test]
fn running_out_of_turns_reports_running() {
    // goto 0
    let code = [0xA7, 0x00, 0x00];
    let mut jvm = JVM::new();
    jvm.class_loader.load_class("Main", main_class(&code, 0, 1)).unwrap();
    assert_eq!(jvm.run_class("Main", 50), Ok(Progress::Running));
    assert_eq!(jvm.threads[0].stack[0].pc, 0);
    assert_eq!(jvm.resume(50), Ok(Progress::Running));
}

#[test]
fn a_frame_at_the_end_of_its_code_is_dropped() {
    let mut jvm = JVM::new();
    let mut thread = JThread { stack: vec![frame_with(vec![0x00], 0, 0)] };
    assert_eq!(jvm.step(&mut thread), Ok(Progress::Running));
    assert_eq!(thread.stack[0].pc, 1);
    assert_eq!(jvm.step(&mut thread), Ok(Progress::Running));
    assert!(thread.stack.is_empty());
    assert_eq!(jvm.step(&mut thread), Ok(Progress::Finished));
}

#[test]
fn integer_addition_wraps() {
    let mut frame = frame_with(vec![], 2, 0);
    frame.operand_stack = vec![JValue::Int(i32::MAX), JValue::Int(1)];
    assert_eq!(JVM::iadd(&mut frame), Ok(()));
    assert_eq!(frame.operand_stack, vec![JValue::Int(i32::MIN)]);
}

#[test]
fn integer_multiplication_wraps() {
    let mut frame = frame_with(vec![], 2, 0);
    frame.operand_stack = vec![JValue::Int(0x4000_0000), JValue::Int(4)];
    assert_eq!(JVM::imul(&mut frame), Ok(()));
    assert_eq!(frame.operand_stack, vec![JValue::Int(0)]);
}

#[test]
fn integer_negation_of_the_minimum_wraps() {
    let mut frame = frame_with(vec![], 1, 0);
    frame.operand_stack = vec![JValue::Int(i32::MIN)];
    assert_eq!(JVM::ineg(&mut frame), Ok(()));
    assert_eq!(frame.operand_stack, vec![JValue::Int(i32::MIN)]);
}

#[test]
fn integer_division_by_zero_faults_and_changes_nothing() {
    let mut frame = frame_with(vec![], 2, 0);
    frame.operand_stack = vec![JValue::Int(7), JValue::Int(0)];
    assert_eq!(JVM::idiv(&mut frame), Err(JVMError::DivisionByZero));
    assert_eq!(frame.operand_stack, vec![JValue::Int(7), JValue::Int(0)]);
    assert_eq!(JVM::irem(&mut frame), Err(JVMError::DivisionByZero));
    frame.operand_stack = vec![JValue::Long(7), JValue::Long(0)];
    assert_eq!(JVM::ldiv(&mut frame), Err(JVMError::DivisionByZero));
    assert_eq!(JVM::lrem(&mut frame), Err(JVMError::DivisionByZero));
}

#[test]
fn integer_division_rounds_towards_zero() {
    let mut frame = frame_with(vec![], 2, 0);
    frame.operand_stack = vec![JValue::Int(-7), JValue::Int(2)];
    assert_eq!(JVM::idiv(&mut frame), Ok(()));
    assert_eq!(frame.operand_stack, vec![JValue::Int(-3)]);
    frame.operand_stack = vec![JValue::Int(-7), JValue::Int(2)];
    assert_eq!(JVM::irem(&mut frame), Ok(()));
    assert_eq!(frame.operand_stack, vec![JValue::Int(-1)]);
    frame.operand_stack = vec![JValue::Int(i32::MIN), JValue::Int(-1)];
    assert_eq!(JVM::idiv(&mut frame), Ok(()));
    assert_eq!(frame.operand_stack, vec![JValue::Int(i32::MIN)]);
}

#[test]
fn unsigned_shift_fills_with_zeroes_and_masks_the_count() {
    let mut frame = frame_with(vec![], 2, 0);
    frame.operand_stack = vec![JValue::Int(-1), JValue::Int(28)];
    assert_eq!(JVM::iushr(&mut frame), Ok(()));
    assert_eq!(frame.operand_stack, vec![JValue::Int(0xF)]);
    frame.operand_stack = vec![JValue::Int(-1), JValue::Int(32 + 28)];
    assert_eq!(JVM::iushr(&mut frame), Ok(()));
    assert_eq!(frame.operand_stack, vec![JValue::Int(0xF)]);
    frame.operand_stack = vec![JValue::Int(-16), JValue::Int(2)];
    assert_eq!(JVM::ishr(&mut frame), Ok(()));
    assert_eq!(frame.operand_stack, vec![JValue::Int(-4)]);
    frame.operand_stack = vec![JValue::Int(1), JValue::Int(33)];
    assert_eq!(JVM::ishl(&mut frame), Ok(()));
    assert_eq!(frame.operand_stack, vec![JValue::Int(2)]);
}

#[test]
fn long_unsigned_shift_is_a_sixty_four_bit_shift() {
    let mut frame = frame_with(vec![], 2, 0);
    frame.operand_stack = vec![JValue::Long(-1), JValue::Int(60)];
    assert_eq!(JVM::lushr(&mut frame), Ok(()));
    assert_eq!(frame.operand_stack, vec![JValue::Long(0xF)]);
    frame.operand_stack = vec![JValue::Long(1), JValue::Int(64 + 3)];
    assert_eq!(JVM::lshl(&mut frame), Ok(()));
    assert_eq!(frame.operand_stack, vec![JValue::Long(8)]);
}

#[test]
fn arithmetic_on_the_wrong_kind_is_a_type_mismatch() {
    let mut frame = frame_with(vec![], 2, 0);
    frame.operand_stack = vec![JValue::Int(1), JValue::Long(1)];
    assert_eq!(JVM::iadd(&mut frame), Err(JVMError::TypeMismatch));
    assert_eq!(frame.operand_stack, vec![JValue::Int(1), JValue::Long(1)]);
    frame.operand_stack = vec![JValue::Int(1)];
    assert_eq!(JVM::iadd(&mut frame), Err(JVMError::InterpreterBug));
}

#[test]
fn narrowing_conversions_truncate() {
    let mut frame = frame_with(vec![], 1, 0);
    frame.operand_stack = vec![JValue::Int(0x1FF)];
    assert_eq!(JVM::i2b(&mut frame), Ok(()));
    assert_eq!(frame.operand_stack, vec![JValue::Byte(-1)]);
    frame.operand_stack = vec![JValue::Int(-1)];
    assert_eq!(JVM::i2c(&mut frame), Ok(()));
    assert_eq!(frame.operand_stack, vec![JValue::Char(0xFFFF)]);
    frame.operand_stack = vec![JValue::Int(0x1_8000)];
    assert_eq!(JVM::i2s(&mut frame), Ok(()));
    assert_eq!(frame.operand_stack, vec![JValue::Short(-32768)]);
    frame.operand_stack = vec![JValue::Long(0x1_0000_0005)];
    assert_eq!(JVM::l2i(&mut frame), Ok(()));
    assert_eq!(frame.operand_stack, vec![JValue::Int(5)]);
    frame.operand_stack = vec![JValue::Int(-5)];
    assert_eq!(JVM::i2l(&mut frame), Ok(()));
    assert_eq!(frame.operand_stack, vec![JValue::Long(-5)]);
}

#[test]
fn long_comparison_pushes_the_sign() {
    let mut frame = frame_with(vec![], 2, 0);
    for (a, b, expected) in [(1i64, 2i64, -1), (2, 2, 0), (3, 2, 1)] {
        frame.operand_stack = vec![JValue::Long(a), JValue::Long(b)];
        assert_eq!(JVM::lcmp(&mut frame), Ok(()));
        assert_eq!(frame.operand_stack, vec![JValue::Int(expected)]);
    }
}

#[test]
fn dup2_of_a_long_copies_one_value() {
    let mut frame = frame_with(vec![], 3, 0);
    frame.operand_stack = vec![JValue::Int(1), JValue::Long(9)];
    assert_eq!(JVM::dup2(&mut frame), Ok(()));
    assert_eq!(frame.operand_stack, vec![JValue::Int(1), JValue::Long(9), JValue::Long(9)]);
}

#[test]
fn dup2_of_two_ints_copies_both() {
    let mut frame = frame_with(vec![], 4, 0);
    frame.operand_stack = vec![JValue::Int(1), JValue::Int(2)];
    assert_eq!(JVM::dup2(&mut frame), Ok(()));
    assert_eq!(
        frame.operand_stack,
        vec![JValue::Int(1), JValue::Int(2), JValue::Int(1), JValue::Int(2)]
    );
}

#[test]
fn pop2_of_two_ints_pops_both() {
    let mut frame = frame_with(vec![], 3, 0);
    frame.operand_stack = vec![JValue::Int(0), JValue::Int(1), JValue::Int(2)];
    assert_eq!(JVM::pop2(&mut frame), Ok(()));
    assert_eq!(frame.operand_stack, vec![JValue::Int(0)]);
}

#[test]
fn pop2_of_a_long_pops_one_value() {
    let mut frame = frame_with(vec![], 3, 0);
    frame.operand_stack = vec![JValue::Int(0), JValue::Long(2)];
    assert_eq!(JVM::pop2(&mut frame), Ok(()));
    assert_eq!(frame.operand_stack, vec![JValue::Int(0)]);
}

#[test]
fn dup_x_forms_insert_below() {
    let one = JValue::Int(1);
    let two = JValue::Int(2);
    let three = JValue::Int(3);
    let four = JValue::Int(4);
    let long = JValue::Long(8);
    let mut frame = frame_with(vec![], 8, 0);
    frame.operand_stack = vec![two, one];
    assert_eq!(JVM::dup_x1(&mut frame), Ok(()));
    assert_eq!(frame.operand_stack, vec![one, two, one]);
    frame.operand_stack = vec![three, two, one];
    assert_eq!(JVM::dup_x2(&mut frame), Ok(()));
    assert_eq!(frame.operand_stack, vec![one, three, two, one]);
    frame.operand_stack = vec![long, one];
    assert_eq!(JVM::dup_x2(&mut frame), Ok(()));
    assert_eq!(frame.operand_stack, vec![one, long, one]);
    frame.operand_stack = vec![three, two, one];
    assert_eq!(JVM::dup2_x1(&mut frame), Ok(()));
    assert_eq!(frame.operand_stack, vec![two, one, three, two, one]);
    frame.operand_stack = vec![one, long];
    assert_eq!(JVM::dup2_x1(&mut frame), Ok(()));
    assert_eq!(frame.operand_stack, vec![long, one, long]);
    frame.operand_stack = vec![four, three, two, one];
    assert_eq!(JVM::dup2_x2(&mut frame), Ok(()));
    assert_eq!(frame.operand_stack, vec![two, one, four, three, two, one]);
    frame.operand_stack = vec![three, two, long];
    assert_eq!(JVM::dup2_x2(&mut frame), Ok(()));
    assert_eq!(frame.operand_stack, vec![long, three, two, long]);
    frame.operand_stack = vec![long, two, one];
    assert_eq!(JVM::dup2_x2(&mut frame), Ok(()));
    assert_eq!(frame.operand_stack, vec![two, one, long, two, one]);
    frame.operand_stack = vec![JValue::Long(7), long];
    assert_eq!(JVM::dup2_x2(&mut frame), Ok(()));
    assert_eq!(frame.operand_stack, vec![long, JValue::Long(7), long]);
    frame.operand_stack = vec![two, one];
    assert_eq!(JVM::swap(&mut frame), Ok(()));
    assert_eq!(frame.operand_stack, vec![one, two]);
}

#[test]
fn the_operand_stack_cannot_outgrow_its_limit() {
    let mut frame = frame_with(vec![], 1, 0);
    assert_eq!(JVM::iconst_i(&mut frame, 1), Ok(()));
    assert_eq!(JVM::iconst_i(&mut frame, 2), Err(JVMError::InterpreterBug));
    assert_eq!(frame.operand_stack, vec![JValue::Int(1)]);
    assert_eq!(JVM::dup(&mut frame), Err(JVMError::InterpreterBug));
}

#[test]
fn locals_outside_the_method_cannot_be_reached() {
    let mut frame = frame_with(vec![], 1, 2);
    frame.locals[1] = JValue::Int(5);
    assert_eq!(JVM::iload(&mut frame, 1), Ok(()));
    assert_eq!(JVM::istore(&mut frame, 2), Err(JVMError::InterpreterBug));
    assert_eq!(JVM::iload(&mut frame, 2), Err(JVMError::InterpreterBug));
    assert_eq!(JVM::istore(&mut frame, 0), Ok(()));
    assert_eq!(frame.locals, vec![JValue::Int(5), JValue::Int(5)]);
    frame.operand_stack = vec![JValue::Long(1)];
    assert_eq!(JVM::lstore(&mut frame, 1), Err(JVMError::InterpreterBug));
    assert_eq!(JVM::lstore(&mut frame, 0), Ok(()));
}

#[test]
fn iinc_adds_in_place_and_wraps() {
    let mut frame = frame_with(vec![], 0, 1);
    frame.locals[0] = JValue::Int(i32::MAX);
    assert_eq!(JVM::iinc(&mut frame, 0, 1), Ok(()));
    assert_eq!(frame.locals, vec![JValue::Int(i32::MIN)]);
    assert_eq!(JVM::iinc(&mut frame, 0, -1), Ok(()));
    assert_eq!(frame.locals, vec![JValue::Int(i32::MAX)]);
    frame.locals[0] = JValue::Null;
    assert_eq!(JVM::iinc(&mut frame, 0, 1), Err(JVMError::TypeMismatch));
}

#[test]
fn a_branch_out_of_the_code_faults() {
    let mut frame = frame_with(vec![0xA7, 0x00, 0x09], 0, 0);
    assert_eq!(JVM::goto(&mut frame, 9), Err(JVMError::InterpreterBug));
    assert_eq!(frame.pc, 0);
    assert_eq!(JVM::goto(&mut frame, -1), Err(JVMError::InterpreterBug));
    assert_eq!(JVM::goto(&mut frame, 3), Ok(true));
    assert_eq!(frame.pc, 3);
}

#[test]
fn if_icmpge_branches_on_equal_values() {
    let mut frame = frame_with(vec![0x00; 8], 2, 0);
    frame.operand_stack = vec![JValue::Int(3), JValue::Int(3)];
    assert_eq!(JVM::if_icmpge(&mut frame, 5), Ok(true));
    assert_eq!(frame.pc, 5);
    frame.pc = 0;
    frame.operand_stack = vec![JValue::Int(3), JValue::Int(3)];
    assert_eq!(JVM::if_icmpgt(&mut frame, 5), Ok(false));
    assert_eq!(frame.pc, 0);
    assert!(frame.operand_stack.is_empty());
}

#[test]
fn null_tests_branch() {
    let mut frame = frame_with(vec![0x00; 8], 2, 0);
    frame.operand_stack = vec![JValue::Null];
    assert_eq!(JVM::ifnull(&mut frame, 4), Ok(true));
    frame.operand_stack = vec![JValue::Reference(0)];
    assert_eq!(JVM::ifnull(&mut frame, 4), Ok(false));
    frame.operand_stack = vec![JValue::Reference(0)];
    assert_eq!(JVM::ifnonnull(&mut frame, 1), Ok(true));
    frame.operand_stack = vec![JValue::Int(0)];
    assert_eq!(JVM::ifnull(&mut frame, 4), Err(JVMError::TypeMismatch));
    frame.operand_stack = vec![JValue::Reference(1), JValue::Reference(2)];
    assert_eq!(JVM::if_acmpne(&mut frame, -1), Ok(true));
}

#[test]
fn unsupported_instructions_are_refused() {
    let mut jvm = JVM::new();
    for code in [vec![0xA8u8, 0, 0], vec![0xA9, 0], vec![0xB2, 0, 1], vec![0xB6, 0, 1], vec![0xBF], vec![0xC2]] {
        let mut thread = JThread { stack: vec![frame_with(code, 1, 1)] };
        assert_eq!(jvm.step(&mut thread), Err(JVMError::UnsupportedInstruction));
        assert_eq!(thread.stack[0].pc, 0);
    }
}

#[test]
fn an_unknown_opcode_is_a_decode_error() {
    let mut jvm = JVM::new();
    let mut thread = JThread { stack: vec![frame_with(vec![0x00, 0xCB], 1, 1)] };
    assert_eq!(jvm.step(&mut thread), Ok(Progress::Running));
    match jvm.step(&mut thread) {
        Err(JVMError::Decode(e)) => {
            assert_eq!(e.kind, rjvm::error::DecodeErrorKind::InvalidOpcode);
            assert_eq!(e.offset, 1);
        },
        other => panic!("{:?}", other),
    }
}

#[test]
fn floating_point_instructions_ask_and_are_completed() {
    // fconst_1, fconst_2, fadd, fconst_0, fcmpg, ireturn
    let code = [0x0C, 0x0D, 0x62, 0x0B, 0x96, 0xAC];
    let (mut jvm, mut thread) = started(&code, 2, 1);
    assert_eq!(jvm.step(&mut thread), Ok(Progress::Running));
    assert_eq!(jvm.step(&mut thread), Ok(Progress::Running));
    let request = FloatRequest {
        op: FloatOp::FAdd,
        x: JValue::Float(1.0f32.to_bits()),
        y: JValue::Float(2.0f32.to_bits()),
    };
    assert_eq!(jvm.step(&mut thread), Ok(Progress::NeedFloat(request)));
    assert_eq!(thread.stack[1].pc, 2);
    assert_eq!(thread.stack[1].operand_stack.len(), 2);
    let sum = f32::from_bits(1.0f32.to_bits()) + f32::from_bits(2.0f32.to_bits());
    assert_eq!(
        JVM::answer_float(&mut thread, FloatAnswer::Value(JValue::Float(sum.to_bits()))),
        Ok(())
    );
    assert_eq!(thread.stack[1].operand_stack, vec![JValue::Float(3.0f32.to_bits())]);
    assert_eq!(thread.stack[1].pc, 3);
    assert_eq!(jvm.step(&mut thread), Ok(Progress::Running));
    match jvm.step(&mut thread) {
        Ok(Progress::NeedFloat(request)) => assert_eq!(request.op, FloatOp::FCmpG),
        other => panic!("{:?}", other),
    }
    assert_eq!(JVM::answer_float(&mut thread, FloatAnswer::Unordered), Ok(()));
    assert_eq!(thread.stack[1].operand_stack, vec![JValue::Int(1)]);
    assert_eq!(returned(&mut jvm, &mut thread), vec![JValue::Int(1)]);
}

#[test]
fn comparisons_push_minus_one_for_unordered_in_the_l_form() {
    let mut frame = frame_with(vec![], 2, 0);
    frame.operand_stack = vec![JValue::Double(f64::NAN.to_bits()), JValue::Double(0)];
    assert_eq!(JVM::apply_float(&mut frame, FloatOp::DCmpL, FloatAnswer::Unordered), Ok(()));
    assert_eq!(frame.operand_stack, vec![JValue::Int(-1)]);
    frame.operand_stack = vec![JValue::Double(0), JValue::Double(0)];
    assert_eq!(JVM::apply_float(&mut frame, FloatOp::DCmpG, FloatAnswer::Less), Ok(()));
    assert_eq!(frame.operand_stack, vec![JValue::Int(-1)]);
    frame.operand_stack = vec![JValue::Float(0), JValue::Float(0)];
    assert_eq!(JVM::apply_float(&mut frame, FloatOp::FCmpL, FloatAnswer::Equal), Ok(()));
    assert_eq!(frame.operand_stack, vec![JValue::Int(0)]);
    frame.operand_stack = vec![JValue::Float(0), JValue::Float(0)];
    assert_eq!(JVM::apply_float(&mut frame, FloatOp::FCmpL, FloatAnswer::Greater), Ok(()));
    assert_eq!(frame.operand_stack, vec![JValue::Int(1)]);
}

#[test]
fn an_answer_of_the_wrong_kind_is_refused() {
    let mut frame = frame_with(vec![], 2, 0);
    frame.operand_stack = vec![JValue::Float(0), JValue::Float(0)];
    assert_eq!(
        JVM::apply_float(&mut frame, FloatOp::FAdd, FloatAnswer::Value(JValue::Int(1))),
        Err(JVMError::InterpreterBug)
    );
    assert_eq!(
        JVM::apply_float(&mut frame, FloatOp::FAdd, FloatAnswer::Less),
        Err(JVMError::InterpreterBug)
    );
    assert_eq!(frame.operand_stack.len(), 2);
    frame.operand_stack = vec![JValue::Int(3)];
    assert_eq!(
        JVM::apply_float(&mut frame, FloatOp::I2D, FloatAnswer::Value(JValue::Double(3.0f64.to_bits()))),
        Ok(())
    );
    assert_eq!(frame.operand_stack, vec![JValue::Double(3.0f64.to_bits())]);
    assert_eq!(JVM::f2i(&frame), Err(JVMError::TypeMismatch));
}

/// A machine that holds the class `Callee` with the method `f:(JID)V`, and
/// the handle of the class.  The pool of the class is: 1 Utf8 Callee,
/// 2 Class 1, 3 Utf8 f, 4 Utf8 (JID)V, 5 NameAndType f:(JID)V,
/// 6 MethodRef Callee.f:(JID)V, 7 Utf8 g, 8 NameAndType g:(JID)V,
/// 9 MethodRef Callee.g:(JID)V.
fn machine_with_callee(max_locals: u16) -> (JVM, usize) {
    let text = |s: &str| ConstantPoolInfo::Utf8 { string: String::from(s) };
    let pool = vec![
        ConstantPoolInfo::Unusable,
        text("Callee"),
        ConstantPoolInfo::Class { name_index: 1 },
        text("f"),
        text("(JID)V"),
        ConstantPoolInfo::NameAndType { name_index: 3, descriptor_index: 4 },
        ConstantPoolInfo::MethodRef { class_index: 2, name_and_type_index: 5 },
        text("g"),
        ConstantPoolInfo::NameAndType { name_index: 7, descriptor_index: 4 },
        ConstantPoolInfo::MethodRef { class_index: 2, name_and_type_index: 8 },
    ];
    let mut methods: NameTable<Rc<Method>> = NameTable::new();
    methods.insert(
        String::from("f:(JID)V"),
        Rc::new(Method {
            name: String::from("f"),
            descriptor: String::from("(JID)V"),
            code: vec![0xB1],
            max_locals,
            max_stack: 0,
        }),
    );
    let class = Class {
        name: String::from("Callee"),
        super_name: None,
        methods,
        fields: NameTable::new(),
        constant_pool: VMConstantPool::new(pool),
        access_flags: ClassAccessFlags { bits: ClassAccessFlags::PUBLIC },
    };
    let mut jvm = JVM::new();
    let handle = jvm.class_loader.add(class);
    (jvm, handle)
}

#[test]
fn a_call_places_arguments_in_their_slots() {
    let (mut jvm, callee) = machine_with_callee(6);
    let mut frame = frame_with(vec![0xB7, 0, 6, 0xB1], 4, 0);
    frame.class = callee;
    frame.operand_stack =
        vec![JValue::Reference(3), JValue::Long(7), JValue::Int(8), JValue::Double(9)];
    let mut thread = JThread { stack: vec![frame] };
    assert_eq!(jvm.step(&mut thread), Ok(Progress::Running));
    assert_eq!(thread.stack.len(), 2);
    assert_eq!(thread.stack[0].pc, 3);
    assert!(thread.stack[0].operand_stack.is_empty());
    assert_eq!(thread.stack[1].class, callee);
    assert_eq!(thread.stack[1].method.name, "f");
    assert_eq!(thread.stack[1].pc, 0);
    assert!(thread.stack[1].operand_stack.is_empty());
    assert_eq!(
        thread.stack[1].locals,
        vec![
            JValue::Reference(3),
            JValue::Long(7),
            JValue::Null,
            JValue::Int(8),
            JValue::Double(9),
            JValue::Null
        ]
    );
    assert_eq!(jvm.step(&mut thread), Ok(Progress::Running));
    assert_eq!(thread.stack.len(), 1);
    assert_eq!(thread.stack[0].pc, 3);
}

#[test]
fn a_call_needs_room_for_its_arguments() {
    let (mut jvm, callee) = machine_with_callee(5);
    let mut frame = frame_with(vec![0xB7, 0, 6], 4, 0);
    frame.class = callee;
    frame.operand_stack =
        vec![JValue::Reference(3), JValue::Long(7), JValue::Int(8), JValue::Double(9)];
    let mut thread = JThread { stack: vec![frame] };
    assert_eq!(jvm.invokespecial(&mut thread, 6, 3), Err(JVMError::InterpreterBug));
    assert_eq!(thread.stack.len(), 1);
    assert_eq!(thread.stack[0].operand_stack.len(), 4);
    thread.stack[0].operand_stack.remove(0);
    assert_eq!(jvm.invokespecial(&mut thread, 6, 3), Err(JVMError::InterpreterBug));
}

#[test]
fn a_call_on_null_faults() {
    let (mut jvm, callee) = machine_with_callee(6);
    let mut frame = frame_with(vec![0xB7, 0, 6], 4, 0);
    frame.class = callee;
    frame.operand_stack = vec![JValue::Null, JValue::Long(7), JValue::Int(8), JValue::Double(9)];
    let mut thread = JThread { stack: vec![frame] };
    assert_eq!(jvm.invokespecial(&mut thread, 6, 3), Err(JVMError::NullDereference));
    assert_eq!(thread.stack.len(), 1);
    assert_eq!(thread.stack[0].operand_stack.len(), 4);
    thread.stack[0].operand_stack[0] = JValue::Int(1);
    assert_eq!(jvm.invokespecial(&mut thread, 6, 3), Err(JVMError::TypeMismatch));
    assert_eq!(jvm.invokespecial(&mut thread, 9, 3), Err(JVMError::MissingMember));
    assert!(matches!(jvm.invokespecial(&mut thread, 2, 3), Err(JVMError::Decode(_))));
    let mut empty = JThread { stack: vec![] };
    assert_eq!(jvm.invokespecial(&mut empty, 6, 3), Err(JVMError::InterpreterBug));
}

#[test]
fn a_return_without_a_caller_drops_the_value() {
    let mut thread = JThread { stack: vec![frame_with(vec![0xAC], 1, 0)] };
    thread.stack[0].operand_stack = vec![JValue::Int(1)];
    assert_eq!(JVM::ireturn(&mut thread), Ok(()));
    assert!(thread.stack.is_empty());
    assert_eq!(JVM::return_op(&mut thread), Err(JVMError::InterpreterBug));
}

#[test]
fn a_return_of_the_wrong_kind_faults() {
    let mut thread = JThread { stack: vec![frame_with(vec![0xAC], 1, 0)] };
    thread.stack[0].operand_stack = vec![JValue::Long(1)];
    assert_eq!(JVM::ireturn(&mut thread), Err(JVMError::TypeMismatch));
    assert_eq!(thread.stack.len(), 1);
    assert_eq!(JVM::lreturn(&mut thread), Ok(()));
}

#[test]
fn wide_instructions_reach_high_locals() {
    // wide iload 300, wide iinc 300 -2, wide istore 301 ...
    let mut code = vec![0xC4, 0x15, 0x01, 0x2C, 0xC4, 0x84, 0x01, 0x2C, 0xFF, 0xFE];
    code.extend_from_slice(&[0xC4, 0x36, 0x01, 0x2D]);
    let mut jvm = JVM::new();
    let mut thread = JThread { stack: vec![frame_with(code, 1, 302)] };
    thread.stack[0].locals[300] = JValue::Int(10);
    assert_eq!(jvm.step(&mut thread), Ok(Progress::Running));
    assert_eq!(thread.stack[0].operand_stack, vec![JValue::Int(10)]);
    assert_eq!(jvm.step(&mut thread), Ok(Progress::Running));
    assert_eq!(thread.stack[0].locals[300], JValue::Int(8));
    assert_eq!(jvm.step(&mut thread), Ok(Progress::Running));
    assert_eq!(thread.stack[0].locals[301], JValue::Int(10));
    assert_eq!(thread.stack[0].pc, 14);
}

#[test]
fn ldc2_w_pushes_a_long() {
    let mut jvm = JVM::new();
    let mut pool = VMConstantPool::empty();
    pool.cp = vec![
        ConstantPoolInfo::Unusable,
        ConstantPoolInfo::Long { bytes: 1 << 40 },
        ConstantPoolInfo::Unusable,
        ConstantPoolInfo::Integer { bytes: 5 },
    ];
    let mut class = Class::reference_array_class("X");
    class.constant_pool = pool;
    let handle = jvm.class_loader.add(class);
    let mut frame = frame_with(vec![], 1, 0);
    frame.class = handle;
    assert_eq!(jvm.ldc2_w(&mut frame, 1), Ok(()));
    assert_eq!(frame.operand_stack, vec![JValue::Long(1 << 40)]);
    frame.operand_stack.clear();
    assert!(matches!(jvm.ldc2_w(&mut frame, 3), Err(JVMError::Decode(_))));
    assert_eq!(jvm.ldc(&mut frame, 3), Ok(()));
    assert_eq!(frame.operand_stack, vec![JValue::Int(5)]);
}

#[test]
fn execute_opcode_needs_the_instruction_within_the_code() {
    let mut jvm = JVM::new();
    let mut thread = JThread { stack: vec![frame_with(vec![0x00], 1, 0)] };
    assert_eq!(jvm.execute_opcode(&mut thread, &Opcode::Nop, 2), Err(JVMError::InterpreterBug));
    assert_eq!(jvm.execute_opcode(&mut thread, &Opcode::Nop, 1), Ok(Progress::Running));
    assert_eq!(thread.stack[0].pc, 1);
}

#[test]
fn a_run_reports_running_only_when_its_turns_are_used_up() {
    // iconst_2, iconst_3, iadd, istore_1, iconst_5, iload_1, imul, ireturn
    let code = [0x05, 0x06, 0x60, 0x3C, 0x08, 0x1B, 0x68, 0xAC];
    let (mut jvm, mut thread) = started(&code, 2, 2);
    assert_eq!(jvm.run(&mut thread, 0), Ok(Progress::Running));
    assert_eq!(thread.stack[1].pc, 0);
    assert_eq!(jvm.run(&mut thread, 3), Ok(Progress::Running));
    assert_eq!(thread.stack[1].pc, 3);
    assert_eq!(thread.stack[1].operand_stack, vec![JValue::Int(5)]);
    assert_eq!(jvm.run(&mut thread, 4), Ok(Progress::Running));
    assert_eq!(thread.stack[1].pc, 7);
    assert_eq!(thread.stack[1].operand_stack, vec![JValue::Int(25)]);
    // the return, the caller's one instruction, the end of the caller,
    // and the turn that finds the thread without frames
    assert_eq!(jvm.run(&mut thread, 3), Ok(Progress::Running));
    assert!(thread.stack.is_empty());
    assert_eq!(jvm.run(&mut thread, 1), Ok(Progress::Finished));
}

#[test]
fn a_run_stops_early_only_with_another_report() {
    // new Other, areturn
    let code = [0xBB, 0x00, 0x13, 0xB0];
    let (mut jvm, mut thread) = started(&code, 1, 1);
    assert_eq!(jvm.run(&mut thread, 50), Ok(Progress::NeedClass(String::from("Other"))));
    assert_eq!(thread.stack[1].pc, 0);
    // idiv by zero
    let code = [0x04, 0x03, 0x6C, 0xAC];
    let (mut jvm, mut thread) = started(&code, 2, 1);
    assert_eq!(jvm.run(&mut thread, 50), Err(JVMError::DivisionByZero));
    assert_eq!(thread.stack[1].pc, 2);
}

#[test]
fn a_class_runs_until_it_is_finished_or_its_turns_are_used_up() {
    let code = [0x05, 0x06, 0x60, 0x3C, 0x08, 0x1B, 0x68, 0xAC];
    let mut jvm = JVM::new();
    jvm.class_loader.load_class("Main", main_class(&code, 2, 2)).unwrap();
    // eight instructions take eight turns; the ninth finds no frame left
    assert_eq!(jvm.run_class("Main", 8), Ok(Progress::Running));
    assert!(jvm.threads[0].stack.is_empty());
    assert_eq!(jvm.resume(1), Ok(Progress::Finished));
    let mut jvm = JVM::new();
    jvm.class_loader.load_class("Main", main_class(&code, 2, 2)).unwrap();
    assert_eq!(jvm.run_class("Main", 2), Ok(Progress::Running));
    assert_eq!(jvm.threads[0].stack[0].pc, 2);
    assert_eq!(jvm.threads[0].stack[0].operand_stack, vec![JValue::Int(2), JValue::Int(3)]);
    assert_eq!(jvm.resume(7), Ok(Progress::Finished));
    assert!(jvm.threads[0].stack.is_empty());
}

#[test]
fn a_class_constant_is_pushed_as_a_mirror_of_the_class() {
    // ldc 2 (the class Main), areturn
    let code = [0x12, 2, 0xB0];
    let (mut jvm, mut thread) = started(&code, 1, 1);
    let main = jvm.class_loader.find_class("Main").unwrap();
    let class_class = jvm.class_loader.find_class("java/lang/Class").unwrap();
    assert_eq!(jvm.step(&mut thread), Ok(Progress::Running));
    assert_eq!(thread.stack[1].operand_stack, vec![JValue::Reference(0)]);
    assert_eq!(thread.stack[1].pc, 2);
    assert_eq!(jvm.heap.len(), 1);
    assert_eq!(jvm.heap[0].class, class_class);
    assert!(matches!(jvm.heap[0].kind, JObjectKind::Mirror(c) if c == main));
    assert_eq!(jvm.heap[0].array_length(), None);
    assert_eq!(returned(&mut jvm, &mut thread), vec![JValue::Reference(0)]);
}

#[test]
fn a_class_constant_of_a_class_that_is_not_loaded_asks_for_it() {
    // ldc 19 (the class Other), areturn
    let code = [0x12, 19, 0xB0];
    let (mut jvm, mut thread) = started(&code, 1, 1);
    assert_eq!(jvm.step(&mut thread), Ok(Progress::NeedClass(String::from("Other"))));
    assert!(jvm.heap.is_empty());
    assert_eq!(thread.stack[1].pc, 0);
    jvm.class_loader.load_class("Other", main_class(&[0xB1], 0, 1)).unwrap();
    let other = jvm.class_loader.find_class("Other").unwrap();
    assert_eq!(jvm.step(&mut thread), Ok(Progress::Running));
    assert!(matches!(jvm.heap[0].kind, JObjectKind::Mirror(c) if c == other));
    // a full stack has no room for the reference
    let (mut jvm, mut thread) = started(&[0x12, 2, 0xB0], 0, 1);
    assert_eq!(jvm.step(&mut thread), Err(JVMError::InterpreterBug));
    assert!(jvm.heap.is_empty());
}
