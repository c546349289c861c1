//! Task definitions: a command plus the names of the tasks it depends on.

use vstd::prelude::*;

verus! {

/// One task definition: the command to run and the names of the tasks that
/// must run before it.
pub struct Task {
    cmd: String,
    depends_on: Vec<String>,
}

/// The mathematical content of a task.
#[verifier::ext_equal]
pub ghost struct TaskView {
    pub cmd: Seq<char>,
    pub depends_on: Seq<Seq<char>>,
}

impl View for Task {
    type V = TaskView;

    closed spec fn view(&self) -> TaskView {
        TaskView { cmd: self.cmd@, depends_on: self.depends_on.deep_view() }
    }
}

impl Task {
    /// Build a task from its command and its dependency names.
    pub fn new(cmd: String, depends_on: Vec<String>) -> (t: Task)
        ensures
            t@ == (TaskView { cmd: cmd@, depends_on: depends_on.deep_view() }),
    {
        Task { cmd, depends_on }
    }

    /// The command to run.
    pub fn cmd(&self) -> (r: &String)
        ensures
            r@ == self@.cmd,
    {
        &self.cmd
    }

    /// The names of the tasks that must run first.
    pub fn depends_on(&self) -> (r: &Vec<String>)
        ensures
            r.deep_view() == self@.depends_on,
    {
        &self.depends_on
    }

}

/// Whether a list of task names contains the given name.
pub fn names_contain(v: &Vec<String>, name: &String) -> (r: bool)
    ensures
        r == v.deep_view().contains(name@),
{
    let mut i: usize = 0;
    while i < v.len()
        invariant
            i <= v.len(),
            forall|j: int| 0 <= j < i ==> v.deep_view()[j] != name@,
        decreases v.len() - i,
    {
        if v[i].eq(name) {
            proof {
                assert(v.deep_view()[i as int] == name@);
            }
            return true;
        }
        i = i + 1;
    }
    proof {
        if v.deep_view().contains(name@) {
            let w = choose|k: int| 0 <= k < v.deep_view().len() && v.deep_view()[k] == name@;
        }
    }
    false
}

} // verus!
