//! The terminal-detection walk: a bounded climb through the process
//! ancestry, done as a pure function over a table of (pid, parent, name)
//! entries, so the algorithm is independent of where the table came from.

use vstd::prelude::*;

use crate::strutil::{contains_seq, contains_str, eq_str};

verus! {

/// One process: its id, its parent's id when known, and its name.
#[derive(Debug)]
pub struct ProcEntry {
    pub pid: u32,
    pub parent: Option<u32>,
    pub name: String,
}

/// The first table entry with this pid, if any.
pub open spec fn table_lookup(t: Seq<ProcEntry>, pid: u32) -> Option<ProcEntry>
    decreases t.len(),
{
    if t.len() == 0 {
        Option::None
    } else if t[0].pid == pid {
        Option::Some(t[0])
    } else {
        table_lookup(t.drop_first(), pid)
    }
}

/// Find the first table entry with this pid.
fn find_proc(t: &Vec<ProcEntry>, pid: u32) -> (r: Option<usize>)
    ensures
        match r {
            Option::Some(j) => j < t@.len() && table_lookup(t@, pid) == Option::Some(t@[j as int]),
            Option::None => table_lookup(t@, pid) is None,
        },
{
    let mut i: usize = 0;
    proof {
        assert(t@.subrange(0, t@.len() as int) =~= t@);
    }
    while i < t.len()
        invariant
            i <= t@.len(),
            table_lookup(t@, pid) == table_lookup(t@.subrange(i as int, t@.len() as int), pid),
        decreases t@.len() - i,
    {
        let ghost rest = t@.subrange(i as int, t@.len() as int);
        proof {
            assert(rest[0] == t@[i as int]);
            assert(rest.drop_first() =~= t@.subrange(i + 1, t@.len() as int));
        }
        if t[i].pid == pid {
            return Option::Some(i);
        }
        i = i + 1;
    }
    Option::None
}

/// What an `electron` ancestor resolves to: `vscode` when one of the next
/// two ancestors has a name containing `code`, else `electron` as found.
pub open spec fn electron_name(t: Seq<ProcEntry>, term: ProcEntry) -> Seq<char> {
    match term.parent {
        Option::None => term.name@,
        Option::Some(p3) => match table_lookup(t, p3) {
            Option::None => term.name@,
            Option::Some(par1) => {
                if contains_seq(par1.name@, "code"@) {
                    "vscode"@
                } else {
                    match par1.parent {
                        Option::None => term.name@,
                        Option::Some(p4) => match table_lookup(t, p4) {
                            Option::None => term.name@,
                            Option::Some(par2) => {
                                if contains_seq(par2.name@, "code"@) {
                                    "vscode"@
                                } else {
                                    term.name@
                                }
                            },
                        },
                    }
                }
            },
        },
    }
}

/// The terminal's name: the grandparent of the starting process, found by
/// two parent steps through the table, with the `electron` special case.
/// Any failing lookup along the way makes the fact absent.
pub open spec fn terminal_spec(t: Seq<ProcEntry>, my_pid: u32) -> Option<Seq<char>> {
    match table_lookup(t, my_pid) {
        Option::None => Option::None,
        Option::Some(me) => match me.parent {
            Option::None => Option::None,
            Option::Some(p1) => match table_lookup(t, p1) {
                Option::None => Option::None,
                Option::Some(shell) => match shell.parent {
                    Option::None => Option::None,
                    Option::Some(p2) => match table_lookup(t, p2) {
                        Option::None => Option::None,
                        Option::Some(term) => {
                            if term.name@ == "electron"@ {
                                Option::Some(electron_name(t, term))
                            } else {
                                Option::Some(term.name@)
                            }
                        },
                    },
                },
            },
        },
    }
}

/// Walk two parents up from `my_pid` to the terminal-hosting process and
/// report its name, resolving `electron` to `vscode` when an ancestor's name
/// says so.
pub fn find_terminal(t: &Vec<ProcEntry>, my_pid: u32) -> (r: Option<String>)
    ensures
        match r {
            Option::Some(s) => terminal_spec(t@, my_pid) == Option::Some(s@),
            Option::None => terminal_spec(t@, my_pid) is None,
        },
{
    let me = match find_proc(t, my_pid) {
        Option::Some(j) => j,
        Option::None => {
            return Option::None;
        },
    };
    let p1 = match t[me].parent {
        Option::Some(p) => p,
        Option::None => {
            return Option::None;
        },
    };
    let shell = match find_proc(t, p1) {
        Option::Some(j) => j,
        Option::None => {
            return Option::None;
        },
    };
    let p2 = match t[shell].parent {
        Option::Some(p) => p,
        Option::None => {
            return Option::None;
        },
    };
    let term = match find_proc(t, p2) {
        Option::Some(j) => j,
        Option::None => {
            return Option::None;
        },
    };
    if !eq_str(t[term].name.as_str(), "electron") {
        return Option::Some(t[term].name.clone());
    }
    let p3 = match t[term].parent {
        Option::Some(p) => p,
        Option::None => {
            return Option::Some(t[term].name.clone());
        },
    };
    let par1 = match find_proc(t, p3) {
        Option::Some(j) => j,
        Option::None => {
            return Option::Some(t[term].name.clone());
        },
    };
    if contains_str(t[par1].name.as_str(), "code") {
        return Option::Some(String::from_str("vscode"));
    }
    let p4 = match t[par1].parent {
        Option::Some(p) => p,
        Option::None => {
            return Option::Some(t[term].name.clone());
        },
    };
    let par2 = match find_proc(t, p4) {
        Option::Some(j) => j,
        Option::None => {
            return Option::Some(t[term].name.clone());
        },
    };
    if contains_str(t[par2].name.as_str(), "code") {
        Option::Some(String::from_str("vscode"))
    } else {
        Option::Some(t[term].name.clone())
    }
}

} // verus!
