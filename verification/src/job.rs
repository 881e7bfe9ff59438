//! Jobs: one unit of work, an input line paired with a stable 1-based index,
//! and the enumeration step that turns the collected input lines into jobs.

use vstd::prelude::*;

verus! {

/// One unit of work: an input line together with the stable index assigned to
/// it when the input was enumerated. Immutable once created.
#[derive(Debug)]
pub struct Job {
    /// 1-based position of the line in the input, fixed at enumeration time.
    pub index: usize,
    /// The input line itself.
    pub input: String,
}

/// A startup error: it aborts the run before any worker is started.
#[derive(Debug)]
pub enum StartupError {
    /// The input sequence was empty although the run needs input.
    NoInput,
}

impl StartupError {
    /// The error text, as a plain string.
    pub fn message(&self) -> (r: String)
        ensures
            r@ == "no input lines"@,
    {
        "no input lines".to_owned()
    }
}

/// Number the collected input lines from 1 upward, pairing each line with its
/// index; an empty input sequence is a startup error and yields no jobs.
pub fn enumerate_jobs(lines: Vec<String>) -> (r: Result<Vec<Job>, StartupError>)
    ensures
        r is Ok <==> lines@.len() > 0,
        r matches Ok(jobs) ==> {
            &&& jobs@.len() == lines@.len()
            &&& forall|k: int|
                0 <= k < jobs@.len() ==> jobs@[k].index == k + 1 && jobs@[k].input@ == lines@[k]@
        },
{
    if lines.len() == 0 {
        return Err(StartupError::NoInput);
    }
    let mut jobs: Vec<Job> = Vec::new();
    let mut i: usize = 0;
    while i < lines.len()
        invariant
            i <= lines@.len(),
            jobs@.len() == i,
            forall|k: int| 0 <= k < i ==> jobs@[k].index == k + 1 && jobs@[k].input@ == lines@[k]@,
        decreases lines@.len() - i,
    {
        let input = lines[i].clone();
        jobs.push(Job { index: i + 1, input });
        i += 1;
    }
    Ok(jobs)
}

} // verus!
