use vstd::prelude::*;

verus! {

/// The counter after an admission-controlled request: admitted only when the
/// sum stays within the capacity sampled for the request.
pub open spec fn admit_next(in_use: nat, capacity: nat, bytes: nat) -> Option<nat> {
    if in_use + bytes <= capacity {
        Some(in_use + bytes)
    } else {
        None
    }
}

/// The counter after a forced admission; it saturates at the largest `usize`
/// instead of wrapping.
pub open spec fn force_next(in_use: nat, bytes: nat) -> nat {
    if in_use + bytes <= usize::MAX {
        in_use + bytes
    } else {
        usize::MAX as nat
    }
}

/// The counter after a release: it drops by `bytes`, saturating at zero.
pub open spec fn release_next(in_use: nat, bytes: nat) -> nat {
    if bytes >= in_use {
        0
    } else {
        (in_use - bytes) as nat
    }
}

/// One update of the in-use counter, with what it needs besides the current
/// value. The capacity of an admission is the one sampled when the request
/// began.
#[derive(Clone, Copy, Debug, PartialEq, Eq)]
pub enum Step {
    Admit { capacity: usize, bytes: usize },
    Force { bytes: usize },
    Release { bytes: usize },
}

impl Step {
    /// The value that replaces `in_use`, or `None` where the step is refused.
    pub open spec fn spec_next(self, in_use: usize) -> Option<usize> {
        match self {
            Step::Admit { capacity, bytes } => match admit_next(
                in_use as nat,
                capacity as nat,
                bytes as nat,
            ) {
                Some(n) => Some(n as usize),
                None => None,
            },
            Step::Force { bytes } => Some(force_next(in_use as nat, bytes as nat) as usize),
            Step::Release { bytes } => Some(release_next(in_use as nat, bytes as nat) as usize),
        }
    }

    pub fn next(&self, in_use: usize) -> (r: Option<usize>)
        ensures
            r == self.spec_next(in_use),
    {
        match *self {
            Step::Admit { capacity, bytes } => {
                match in_use.checked_add(bytes) {
                    Some(sum) => {
                        if sum <= capacity {
                            Some(sum)
                        } else {
                            None
                        }
                    },
                    None => None,
                }
            },
            Step::Force { bytes } => Some(in_use.saturating_add(bytes)),
            Step::Release { bytes } => {
                if bytes >= in_use {
                    Some(0)
                } else {
                    Some(in_use - bytes)
                }
            },
        }
    }
}

} // verus!
