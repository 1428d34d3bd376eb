//! Code generation for typed contract-call wrappers.
//!
//! A declaration names a wrapper type with two type placeholders and lists
//! call-description types. From it this crate produces the text of the wrapper
//! struct, its constructor, and one method per call type, and it holds the
//! library code that those methods rely on when they run.

pub mod diagnostic;
pub mod input;
pub mod method_gen;
pub mod model;
pub mod names;
pub mod struct_gen;
pub mod syntax;
pub mod types;

pub use diagnostic::{Diagnostic, ErrorKind, Note};
pub use input::{
    parse_call_list, parse_contract_input, parse_struct_item, CallList, CallType, ContractInput,
    StructItem,
};
pub use model::{
    extract_lifetimes_and_type_params, extract_type_params, GenericParam, ParamList, TypeParam,
    Visibility,
};
pub use struct_gen::{contract, generate_struct, GeneratedStruct};
pub use method_gen::{
    calls, expand_calls, generate_impl, generate_methods, Expansion, GeneratedImpl, GeneratedMethod,
};
pub use names::{derive_method_name, strip_call_suffix};
