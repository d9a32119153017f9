//! Ordered, append-only accumulation of named check results.

use vstd::prelude::*;

verus! {

/// The abstract value of one check: its name, its verdict and its detail.
pub type CheckView = (Seq<char>, bool, Seq<char>);

/// One named observation made while validating an address.
#[derive(Debug)]
pub struct CheckResult {
    pub name: String,
    pub passed: bool,
    pub detail: String,
}

impl View for CheckResult {
    type V = CheckView;

    open spec fn view(&self) -> CheckView {
        (self.name@, self.passed, self.detail@)
    }
}

/// Every check of the sequence passed.
pub open spec fn all_passed(checks: Seq<CheckView>) -> bool {
    forall|i: int| 0 <= i < checks.len() ==> #[trigger] checks[i].1
}

/// The itemised verdict on one address: the checks in the order they were
/// made, and an overall verdict that holds exactly when every check passed.
#[derive(Debug)]
pub struct ValidationResult {
    pub overall_valid: bool,
    pub checks: Vec<CheckResult>,
}

impl View for ValidationResult {
    type V = (bool, Seq<CheckView>);

    open spec fn view(&self) -> (bool, Seq<CheckView>) {
        (self.overall_valid, self.checks@.map_values(|c: CheckResult| c@))
    }
}

impl ValidationResult {
    /// The overall verdict is the conjunction of the verdicts of the checks.
    pub open spec fn wf(&self) -> bool {
        self@.0 == all_passed(self@.1)
    }

    /// An empty report, valid until a check fails.
    pub fn new() -> (r: Self)
        ensures
            r.wf(),
            r@.1 == Seq::<CheckView>::empty(),
            r@.0,
    {
        let r = ValidationResult { overall_valid: true, checks: Vec::new() };
        proof {
            assert(r@.1 =~= Seq::<CheckView>::empty());
        }
        r
    }

    /// Appends a check and folds its verdict into the overall one.
    pub fn add_check(&mut self, check: &str, result: bool, message: String)
        requires
            old(self).wf(),
        ensures
            final(self).wf(),
            final(self)@.1 == old(self)@.1.push((check@, result, message@)),
            final(self)@.0 == (old(self)@.0 && result),
    {
        let ghost before = self@.1;
        let name = check.to_owned();
        self.overall_valid = self.overall_valid && result;
        self.checks.push(CheckResult { name, passed: result, detail: message });
        proof {
            assert(self@.1 =~= before.push((check@, result, message@)));
            let after = self@.1;
            if all_passed(before) && result {
                assert forall|i: int| 0 <= i < after.len() implies #[trigger] after[i].1 by {
                    if i < before.len() {
                        assert(after[i] == before[i]);
                    }
                }
            }
            if !result {
                assert(!after[after.len() - 1].1);
            }
            if !all_passed(before) {
                let j = choose|j: int| 0 <= j < before.len() && !before[j].1;
                assert(after[j] == before[j]);
            }
        }
    }

    /// Whether every check passed.
    pub fn is_valid(&self) -> (r: bool)
        ensures
            r == self@.0,
    {
        self.overall_valid
    }

    /// How many checks were made.
    pub fn len(&self) -> (r: usize)
        ensures
            r == self@.1.len(),
    {
        self.checks.len()
    }
}

} // verus!
