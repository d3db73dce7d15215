use vstd::prelude::*;

verus! {

/// The source of the numbers that tell connections apart in the logs.
#[derive(Debug)]
pub struct RequestCounter {
    next: u64,
}

impl RequestCounter {
    /// The number that is handed out next.
    pub closed spec fn upcoming(self) -> u64 {
        self.next
    }

    /// A counter whose first number is 1.
    pub fn new() -> (c: Self)
        ensures
            c.upcoming() == 1,
    {
        RequestCounter { next: 1 }
    }
}

/// Hands out the next request number. The numbers go up by one each time;
/// after the largest 64-bit value they start over at zero.
pub fn generate_request_id(counter: &mut RequestCounter) -> (id: u64)
    ensures
        id == old(counter).upcoming(),
        final(counter).upcoming() == if id == u64::MAX {
            0
        } else {
            (id + 1) as u64
        },
{
    let id = counter.next;
    counter.next = if id == u64::MAX {
        0
    } else {
        id + 1
    };
    id
}

} // verus!
