use vstd::prelude::*;

verus! {

/// A message returned to the caller of the flat-file service.
pub struct Message {
    pub message: String,
}

impl Message {
    pub fn new(message: String) -> (r: Message)
        ensures
            r.message@ == message@,
    {
        Message { message }
    }
}

} // verus!
