use vstd::prelude::*;

verus! {

/// Outcome of one decode attempt on a buffer that may still be growing.
///
/// `Partial` asks the caller to come back with a longer buffer; it is an
/// ordinary answer and no failure. `Complete` carries the decoded value.
#[derive(Copy, Clone, PartialEq, Eq, Structural, Debug)]
pub enum Status<T> {
    Partial,
    Complete(T),
}

impl<T: View> View for Status<T> {
    type V = Status<T::V>;

    open spec fn view(&self) -> Status<T::V> {
        match self {
            Status::Partial => Status::Partial,
            Status::Complete(value) => Status::Complete(value@),
        }
    }
}

} // verus!
