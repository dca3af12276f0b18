use vstd::prelude::*;
use crate::errors::{Error, EACCES, EISDIR};
use crate::tracee::{Tracee, TraceeView};

verus! {

/// What the path collaborators reported for the first argument of an
/// `execve`.
pub enum ExecveLookup {
    /// Reading the guest path from the tracee, or resolving it (interpreter
    /// chain included) to a host path, failed with this error.
    Unresolved(Error),
    /// The guest path resolved to `host_path`; `alias` is what reverse
    /// translation of `host_path` to a guest path gave (`None`: no distinct
    /// guest name).
    Resolved { host_path: String, alias: Result<Option<String>, Error> },
}

pub enum ExecveLookupView {
    Unresolved(Error),
    Resolved { host_path: Seq<char>, alias: Result<Option<Seq<char>>, Error> },
}

impl View for ExecveLookup {
    type V = ExecveLookupView;

    open spec fn view(&self) -> ExecveLookupView {
        match self {
            ExecveLookup::Unresolved(e) => ExecveLookupView::Unresolved(*e),
            ExecveLookup::Resolved { host_path, alias } => ExecveLookupView::Resolved {
                host_path: host_path@,
                alias: match alias {
                    Ok(Some(a)) => Ok(Some(a@)),
                    Ok(None) => Ok(None),
                    Err(e) => Err(*e),
                },
            },
        }
    }
}

/// The error an `execve` reports for a failed resolution: the kernel refuses
/// to execute a directory with "permission denied", not "is a directory".
pub open spec fn exec_error(e: Error) -> Error {
    if e.errno == EISDIR {
        Error { errno: EACCES }
    } else {
        e
    }
}

/// The outcome of the `execve` enter translation.
pub open spec fn execve_outcome(l: ExecveLookupView) -> Result<(), Error> {
    match l {
        ExecveLookupView::Unresolved(e) => Err(exec_error(e)),
        ExecveLookupView::Resolved { .. } => Ok(()),
    }
}

/// The pending `/proc/self/exe` value after the `execve` enter translation,
/// given the value `prev` before it.
pub open spec fn execve_new_exe(l: ExecveLookupView, prev: Option<Seq<char>>) -> Option<Seq<char>> {
    match l {
        ExecveLookupView::Unresolved(_) => prev,
        ExecveLookupView::Resolved { host_path, alias } => match alias {
            Ok(Some(a)) => Some(a),
            Ok(None) => Some(host_path),
            Err(_) => None,
        },
    }
}

/// Enter-stage translation of `execve`: reports the resolution error, with a
/// directory refused as "permission denied", or records the guest path that
/// `/proc/self/exe` is to show for the new program.
pub fn translate(tracee: &mut Tracee, lookup: &ExecveLookup) -> (r: Result<(), Error>)
    ensures
        r == execve_outcome(lookup@),
        final(tracee)@ == (TraceeView {
            new_exe: execve_new_exe(lookup@, old(tracee)@.new_exe),
            ..old(tracee)@
        }),
        r != Err::<(), Error>(Error { errno: EISDIR }),
        lookup is Resolved <==> r is Ok,
        lookup@ matches ExecveLookupView::Resolved { host_path, alias: Ok(None) }
            ==> final(tracee)@.new_exe == Some(host_path),
        lookup@ matches ExecveLookupView::Resolved { alias: Err(_), .. } ==> final(tracee)@.new_exe is None,
{
    match lookup {
        ExecveLookup::Unresolved(e) => {
            if e.errno == EISDIR {
                Err(Error::sys(EACCES))
            } else {
                Err(*e)
            }
        },
        ExecveLookup::Resolved { host_path, alias } => {
            match alias {
                Ok(Some(a)) => tracee.set_new_exec(Some(a.clone())),
                Ok(None) => tracee.set_new_exec(Some(host_path.clone())),
                Err(_) => tracee.set_new_exec(None),
            }
            Ok(())
        },
    }
}

} // verus!
