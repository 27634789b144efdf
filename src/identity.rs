use vstd::prelude::*;

verus! {

/// The identity of an account: twenty opaque bytes supplied by the host.
#[derive(Clone, Copy, Debug)]
pub struct Address(pub [u8; 20]);

impl View for Address {
    type V = Seq<u8>;

    open spec fn view(&self) -> Seq<u8> {
        self.0@
    }
}

impl Address {
    /// Whether two addresses name the same account, byte by byte.
    pub fn same_as(&self, other: &Address) -> (r: bool)
        ensures
            r == (self@ == other@),
    {
        let mut i: usize = 0;
        while i < 20
            invariant
                0 <= i <= 20,
                self@.len() == 20,
                other@.len() == 20,
                forall|j: int| 0 <= j < i ==> self@[j] == other@[j],
            decreases 20 - i,
        {
            if self.0[i] != other.0[i] {
                return false;
            }
            i = i + 1;
        }
        assert(self@ =~= other@);
        true
    }
}

impl PartialEq for Address {
    fn eq(&self, other: &Address) -> (r: bool) {
        self.same_as(other)
    }
}

impl vstd::std_specs::cmp::PartialEqSpecImpl for Address {
    open spec fn obeys_eq_spec() -> bool {
        true
    }

    open spec fn eq_spec(&self, other: &Address) -> bool {
        self@ == other@
    }
}

impl Eq for Address {
}

/// The context of one call: who is making it.
#[derive(Clone, Copy, Debug)]
pub struct Context {
    pub sender: Address,
}

impl Context {
    /// A context whose caller is `sender`.
    pub fn with_sender(sender: Address) -> (r: Context)
        ensures
            r.sender == sender,
    {
        Context { sender }
    }

    /// The caller of this call.
    pub fn sender(&self) -> (r: Address)
        ensures
            r == self.sender,
    {
        self.sender
    }
}

} // verus!
