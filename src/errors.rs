//! The error stack that surfaces the most recent failure to the foreign
//! caller; callers share one behind a lock.
use vstd::prelude::*;

verus! {

/// Failures as `(message, code)`, oldest first.
pub struct ErrorStack {
    entries: Vec<(String, i32)>,
}

impl View for ErrorStack {
    type V = Seq<(String, i32)>;

    closed spec fn view(&self) -> Seq<(String, i32)> {
        self.entries@
    }
}

impl ErrorStack {
    pub fn new() -> (r: ErrorStack)
        ensures
            r@ == Seq::<(String, i32)>::empty(),
    {
        ErrorStack { entries: Vec::new() }
    }

    /// Records a failure and gives back its code.
    pub fn push_error(&mut self, error: (String, i32)) -> (r: i32)
        ensures
            r == error.1,
            final(self)@ == old(self)@.push(error),
    {
        let code = error.1;
        self.entries.push(error);
        code
    }

    /// The most recent failure, which `errmsg` and `extended_errcode` report.
    pub fn get_latest_error(&self) -> (r: Option<&(String, i32)>)
        ensures
            match r {
                Some(e) => self@.len() > 0 && *e == self@.last(),
                None => self@.len() == 0,
            },
    {
        let n = self.entries.len();
        if n == 0 {
            None
        } else {
            Some(&self.entries[n - 1])
        }
    }
}

} // verus!
