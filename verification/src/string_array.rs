use vstd::prelude::*;
use vstd::string::{StrSliceExecFns, StringSliceAdditionalSpecFns};
use crate::error::StringArrayError;

verus! {

/// The guest-format size of a string array: each element costs its byte
/// length plus one terminator byte.
pub open spec fn cum_size(ss: Seq<Seq<u8>>) -> int
    decreases ss.len(),
{
    if ss.len() == 0 {
        0
    } else {
        cum_size(ss.drop_last()) + ss.last().len() + 1
    }
}

/// An accumulated argument or environment vector, kept within the limits of
/// the guest's 32-bit counting format: the element count and the cumulative
/// byte size (with one terminator byte per element) each fit in 32 bits.
/// Viewed as the sequence of the elements' UTF-8 bytes.
#[derive(Debug)]
pub struct StringArray {
    elems: Vec<Vec<u8>>,
    cumulative: u32,
}

impl View for StringArray {
    type V = Seq<Seq<u8>>;

    closed spec fn view(&self) -> Seq<Seq<u8>> {
        self.elems.deep_view()
    }
}

impl StringArray {
    #[verifier::type_invariant]
    spec fn ty_inv(self) -> bool {
        self.elems.deep_view().len() <= u32::MAX && self.cumulative == cum_size(
            self.elems.deep_view(),
        )
    }

    pub fn new() -> (a: StringArray)
        ensures
            a@ == Seq::<Seq<u8>>::empty(),
    {
        let a = StringArray { elems: Vec::new(), cumulative: 0 };
        proof {
            assert(a.elems.deep_view() =~= Seq::<Seq<u8>>::empty());
        }
        a
    }

    /// Appends one string. An entry is refused, leaving the array unchanged,
    /// exactly when it would push the element count or the cumulative size
    /// out of the guest's 32-bit range.
    pub fn push(&mut self, s: &str) -> (r: Result<(), StringArrayError>)
        ensures
            old(self)@.len() >= u32::MAX ==> r == Err::<(), StringArrayError>(
                StringArrayError::NumberElements,
            ) && final(self)@ == old(self)@,
            old(self)@.len() < u32::MAX && cum_size(old(self)@) + s.spec_bytes().len() + 1
                > u32::MAX ==> r == Err::<(), StringArrayError>(StringArrayError::SizeElements)
                && final(self)@ == old(self)@,
            old(self)@.len() < u32::MAX && cum_size(old(self)@) + s.spec_bytes().len() + 1
                <= u32::MAX ==> r == Ok::<(), StringArrayError>(()) && final(self)@ == old(
                self,
            )@.push(s.spec_bytes()),
    {
        proof {
            use_type_invariant(&*self);
        }
        if self.elems.len() as u64 >= u32::MAX as u64 {
            return Err(StringArrayError::NumberElements);
        }
        let bytes = s.as_bytes_vec();
        let bl = bytes.len();
        if (self.cumulative as u128) + (bl as u128) + 1 > u32::MAX as u128 {
            return Err(StringArrayError::SizeElements);
        }
        let new_cum = self.cumulative + (bl as u32) + 1;
        let ghost v0 = self.elems.deep_view();
        let mut tmp = StringArray::new();
        proof {
            use_type_invariant(&tmp);
        }
        core::mem::swap(self, &mut tmp);
        let StringArray { mut elems, cumulative } = tmp;
        elems.push(bytes);
        proof {
            assert(elems.deep_view() =~~= v0.push(s.spec_bytes()));
            assert(elems.deep_view().drop_last() =~~= v0);
            assert(elems.deep_view().last() =~= s.spec_bytes());
            assert(cum_size(elems.deep_view()) == cum_size(elems.deep_view().drop_last())
                + elems.deep_view().last().len() + 1);
            assert(cum_size(elems.deep_view().drop_last()) == cum_size(v0));
            assert(new_cum == cum_size(elems.deep_view()));
        }
        *self = StringArray { elems, cumulative: new_cum };
        Ok(())
    }

    /// How many elements the array holds.
    pub fn number_elements(&self) -> (n: u32)
        ensures
            n == self@.len(),
    {
        proof {
            use_type_invariant(self);
        }
        self.elems.len() as u32
    }

    /// The cumulative guest-format size of the array.
    pub fn cumulative_size(&self) -> (n: u32)
        ensures
            n == cum_size(self@),
    {
        proof {
            use_type_invariant(self);
        }
        self.cumulative
    }

    /// The bytes of one element.
    pub fn get(&self, i: usize) -> (r: Option<&Vec<u8>>)
        ensures
            i < self@.len() ==> (r matches Some(v) && v@ == self@[i as int]),
            i >= self@.len() ==> r is None,
    {
        if i < self.elems.len() {
            let v = &self.elems[i];
            proof {
                assert(v@ == self.elems.deep_view()[i as int]);
            }
            Some(v)
        } else {
            None
        }
    }
}

} // verus!
