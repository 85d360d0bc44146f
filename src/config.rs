use vstd::prelude::*;
use crate::managed_process::ManagedProcess;

verus! {

/// One configured process: its name, the command and arguments, an optional
/// working directory and an optional listening port.
pub struct ProcessConfig {
    pub name: String,
    pub cmd: Vec<String>,
    pub cwd: Option<String>,
    pub port: Option<u16>,
}

/// The configured processes, in order.
pub struct Config {
    pub processes: Vec<ProcessConfig>,
}

/// Whether `p` is a fresh, never started supervisor for the entry `c`.
pub open spec fn supervises(p: ManagedProcess, c: ProcessConfig) -> bool {
    &&& p.wf()
    &&& p.name@ == c.name@
    &&& p.command@ == c.cmd@
    &&& p.cwd == c.cwd
    &&& p.port == c.port
    &&& p.pid.is_none()
    &&& p.started_at.is_none()
    &&& p.exit_status.is_none()
    &&& p.special is Idle
}

fn clone_words(v: &Vec<String>) -> (r: Vec<String>)
    ensures
        r@ == v@,
{
    let mut r: Vec<String> = Vec::new();
    let mut i: usize = 0;
    while i < v.len()
        invariant
            i <= v@.len(),
            r@ == v@.subrange(0, i as int),
        decreases v@.len() - i,
    {
        r.push(v[i].clone());
        i = i + 1;
        assert(r@ =~= v@.subrange(0, i as int));
    }
    assert(v@.subrange(0, v@.len() as int) =~= v@);
    r
}

fn clone_opt(s: &Option<String>) -> (r: Option<String>)
    ensures
        r == *s,
{
    match s {
        Some(t) => Some(t.clone()),
        None => None,
    }
}

/// The registry: one supervisor per configured process, in the same order.
pub fn build_processes(config: &Config) -> (r: Vec<ManagedProcess>)
    ensures
        r@.len() == config.processes@.len(),
        forall|i: int| 0 <= i < r@.len() ==> supervises(#[trigger] r@[i], config.processes@[i]),
{
    let mut r: Vec<ManagedProcess> = Vec::new();
    let mut i: usize = 0;
    while i < config.processes.len()
        invariant
            i <= config.processes@.len(),
            r@.len() == i,
            forall|j: int| 0 <= j < i ==> supervises(#[trigger] r@[j], config.processes@[j]),
        decreases config.processes@.len() - i,
    {
        let c = &config.processes[i];
        let p = ManagedProcess::new(c.name.as_str(), clone_words(&c.cmd), clone_opt(&c.cwd), c.port);
        r.push(p);
        i = i + 1;
    }
    r
}

} // verus!
