//! Signatures and the binding of the host procedure.

use vstd::prelude::*;

verus! {

/// The type of one value that crosses between host and guest.
#[derive(Clone, Copy, Debug, PartialEq, Eq, Structural)]
pub enum ValueKind {
    /// An integer of 32 bits.
    I32,
    /// An integer of 64 bits.
    I64,
    /// A floating-point number of 32 bits.
    F32,
    /// A floating-point number of 64 bits.
    F64,
    /// A vector of 128 bits.
    V128,
    /// A reference to a value of the host.
    ExternRef,
    /// A reference to a function.
    FuncRef,
    /// A reference to an exception.
    ExceptionRef,
}

/// The mathematical content of a [`Signature`].
pub struct SignatureView {
    pub params: Seq<ValueKind>,
    pub results: Seq<ValueKind>,
}

impl SignatureView {
    /// The signature of a procedure: no parameters, no results.
    pub open spec fn procedure() -> SignatureView {
        SignatureView { params: Seq::empty(), results: Seq::empty() }
    }
}

/// The parameter and result types of a function.
#[derive(Clone, Debug, PartialEq, Eq)]
pub struct Signature {
    pub params: Vec<ValueKind>,
    pub results: Vec<ValueKind>,
}

impl View for Signature {
    type V = SignatureView;

    open spec fn view(&self) -> SignatureView {
        SignatureView { params: self.params@, results: self.results@ }
    }
}

impl Signature {
    /// The signature with the given parameter and result types.
    pub fn new(params: Vec<ValueKind>, results: Vec<ValueKind>) -> (s: Signature)
        ensures
            s@.params == params@,
            s@.results == results@,
    {
        Signature { params, results }
    }

    /// The signature of a procedure: no parameters, no results.
    pub fn procedure() -> (s: Signature)
        ensures
            s@ == SignatureView::procedure(),
    {
        Signature { params: Vec::new(), results: Vec::new() }
    }

    /// Whether this is the signature of a procedure.
    pub fn is_procedure(&self) -> (b: bool)
        ensures
            b == (self@ == SignatureView::procedure()),
    {
        let b = self.params.len() == 0 && self.results.len() == 0;
        proof {
            if b {
                assert(self@.params =~= Seq::empty());
                assert(self@.results =~= Seq::empty());
            }
        }
        b
    }
}

/// The mathematical content of a [`HostBinding`].
pub struct BindingView {
    pub namespace: Seq<char>,
    pub name: Seq<char>,
    pub signature: SignatureView,
}

/// One entry of the binding table: the place under which the host
/// procedure is offered to the guest, and the type it is offered with.
#[derive(Clone, Debug, PartialEq, Eq)]
pub struct HostBinding {
    pub namespace: String,
    pub name: String,
    pub signature: Signature,
}

impl View for HostBinding {
    type V = BindingView;

    open spec fn view(&self) -> BindingView {
        BindingView {
            namespace: self.namespace@,
            name: self.name@,
            signature: self.signature@,
        }
    }
}

impl HostBinding {
    /// The binding of the host procedure at the namespace and name, under
    /// the signature.
    pub fn new(namespace: &str, name: &str, signature: Signature) -> (b: HostBinding)
        ensures
            b@.namespace == namespace@,
            b@.name == name@,
            b@.signature == signature@,
    {
        HostBinding { namespace: namespace.to_owned(), name: name.to_owned(), signature }
    }
}

} // verus!
