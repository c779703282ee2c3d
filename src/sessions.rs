//! The list of applications that have an audio session.
//!
//! Each entry pairs a process name with its process id. The list starts from
//! an enumeration of the sessions open at start-up and grows as sessions are
//! created. The idle process (id 0) is never listed, nor a process twice.
use vstd::prelude::*;

verus! {

/// Process id of the system idle process, which owns no audio of its own.
pub const IDLE_PID: u32 = 0;

/// Whether some entry belongs to process `pid`.
pub open spec fn lists_pid(apps: Seq<(String, u32)>, pid: u32) -> bool {
    exists|i: int| 0 <= i < apps.len() && (#[trigger] apps[i]).1 == pid
}

/// The entries not named `own`, in order.
pub open spec fn without_name(apps: Seq<(String, u32)>, own: Seq<char>) -> Seq<(String, u32)>
    decreases apps.len(),
{
    if apps.len() == 0 {
        Seq::empty()
    } else {
        let rest = without_name(apps.drop_last(), own);
        if apps.last().0@ == own {
            rest
        } else {
            rest.push(apps.last())
        }
    }
}

/// Applications with an audio session.
pub struct AppMonitor {
    current_apps: Vec<(String, u32)>,
}

impl AppMonitor {
    pub closed spec fn view(&self) -> Seq<(String, u32)> {
        self.current_apps@
    }

    /// No process is listed twice, nor the idle process.
    pub closed spec fn wf(&self) -> bool {
        &&& forall|i: int| 0 <= i < self.current_apps@.len() ==> (#[trigger] self.current_apps@[i]).1 != IDLE_PID
        &&& forall|i: int, j: int|
            0 <= i < j < self.current_apps@.len() ==> (#[trigger] self.current_apps@[i]).1
                != (#[trigger] self.current_apps@[j]).1
    }

    pub fn new() -> (r: Self)
        ensures
            r.wf(),
            r@.len() == 0,
    {
        AppMonitor { current_apps: Vec::new() }
    }

    /// Whether process `pid` should be added: it is not the idle process and
    /// is not listed yet. Its name needs to be looked up only then.
    pub fn admits(&self, pid: u32) -> (r: bool)
        ensures
            r == (pid != IDLE_PID && !lists_pid(self@, pid)),
    {
        if pid == IDLE_PID {
            return false;
        }
        let mut i: usize = 0;
        while i < self.current_apps.len()
            invariant
                0 <= i <= self.current_apps@.len(),
                forall|j: int| 0 <= j < i ==> (#[trigger] self.current_apps@[j]).1 != pid,
            decreases self.current_apps@.len() - i,
        {
            if self.current_apps[i].1 == pid {
                return false;
            }
            i = i + 1;
        }
        true
    }

    /// Records the session of process `pid` named `name`. Returns whether it
    /// was added; the idle process and a listed process are left out.
    pub fn add_session(&mut self, name: String, pid: u32) -> (r: bool)
        requires
            old(self).wf(),
        ensures
            final(self).wf(),
            r == (pid != IDLE_PID && !lists_pid(old(self)@, pid)),
            r ==> final(self)@ == old(self)@.push((name, pid)),
            !r ==> final(self)@ == old(self)@,
    {
        if !self.admits(pid) {
            return false;
        }
        self.current_apps.push((name, pid));
        true
    }

    /// Every listed application, in the order found.
    pub fn get_opened_info(&self) -> (r: Vec<(String, u32)>)
        ensures
            r@ == self@,
    {
        let mut r: Vec<(String, u32)> = Vec::with_capacity(self.current_apps.len());
        let mut i: usize = 0;
        while i < self.current_apps.len()
            invariant
                0 <= i <= self.current_apps@.len(),
                r@ == self.current_apps@.subrange(0, i as int),
            decreases self.current_apps@.len() - i,
        {
            let name = self.current_apps[i].0.clone();
            r.push((name, self.current_apps[i].1));
            i = i + 1;
        }
        proof {
            assert(r@ =~= self.current_apps@);
        }
        r
    }

    /// The listed applications but those named `own`, in order: an
    /// application does not offer itself as a source.
    pub fn opened_applications(&self, own: &String) -> (r: Vec<(String, u32)>)
        ensures
            r@ == without_name(self@, own@),
    {
        let mut r: Vec<(String, u32)> = Vec::new();
        let mut i: usize = 0;
        while i < self.current_apps.len()
            invariant
                0 <= i <= self.current_apps@.len(),
                r@ == without_name(self.current_apps@.subrange(0, i as int), own@),
            decreases self.current_apps@.len() - i,
        {
            let ghost before = self.current_apps@.subrange(0, i as int);
            let ghost upto = self.current_apps@.subrange(0, i + 1);
            proof {
                assert(upto.drop_last() =~= before);
                assert(upto.last() == self.current_apps@[i as int]);
            }
            if !(self.current_apps[i].0 == *own) {
                let name = self.current_apps[i].0.clone();
                r.push((name, self.current_apps[i].1));
            }
            i = i + 1;
        }
        proof {
            assert(self.current_apps@.subrange(0, self.current_apps@.len() as int) =~= self.current_apps@);
        }
        r
    }
}

} // verus!
