//! The runtime: values, objects, classes, frames and the interpreter.
pub mod arrays;
pub mod class;
pub mod class_loader;
pub mod comparisons;
pub mod constant_pool;
pub mod constants;
pub mod control;
pub mod conversions;
pub mod decode;
pub mod dispatch;
pub mod dispatch_effect;
pub mod effect;
pub mod execute;
pub mod field;
pub mod floats;
pub mod frame_ops;
pub mod frame_return;
pub mod heap_effect;
pub mod invoke;
pub mod jobject;
pub mod jthread;
pub mod jvalue;
pub mod jvm;
pub mod ldc;
pub mod loads;
pub mod machine_effect;
pub mod math;
pub mod method;
pub mod object_effect;
pub mod opcode;
pub mod references;
pub mod stack;
pub mod stack_frame;
pub mod stores;
pub mod table;
