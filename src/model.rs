use vstd::prelude::*;

verus! {

/// One method of a service, as the IR front end resolved it.
/// `input_ty` and `output_ty` hold the Rust syntax of the request and the
/// response message types.
pub struct MethodDesc {
    pub name: String,
    pub arg_name: String,
    pub input_ty: String,
    pub output_ty: String,
    pub client_streaming: bool,
    pub server_streaming: bool,
}

/// A service: its name, the segments of its package and its methods in
/// declaration order.
pub struct ServiceDesc {
    pub name: String,
    pub package: Vec<String>,
    pub methods: Vec<MethodDesc>,
}

impl ServiceDesc {
    /// The methods' names are pairwise distinct, as the front end guarantees
    /// within one service.
    pub open spec fn names_distinct(&self) -> bool {
        forall|i: int, j: int|
            0 <= i < self.methods@.len() && 0 <= j < self.methods@.len() && i != j
                ==> #[trigger] self.methods@[i].name@ != #[trigger] self.methods@[j].name@
    }
}

} // verus!
