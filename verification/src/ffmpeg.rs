//! Finding the FFmpeg program: where to look for it, which of the places
//! holds it, and what to report when it cannot be found.

use vstd::prelude::*;

use crate::platform::TargetOs;

verus! {

/// The environment variable that may name the FFmpeg program to use.
pub const FFMPEG_ENV_VAR: &'static str = "KOOM_FFMPEG_PATH";

/// The file names FFmpeg goes by: `ffmpeg.exe` then `ffmpeg` on Windows,
/// `ffmpeg` elsewhere.
pub open spec fn executable_names_of(os: TargetOs) -> Seq<&'static str> {
    if os == TargetOs::Windows {
        seq!["ffmpeg.exe", "ffmpeg"]
    } else {
        seq!["ffmpeg"]
    }
}

/// The file names to look for FFmpeg by, in order.
pub fn executable_names(os: TargetOs) -> (r: Vec<&'static str>)
    ensures
        r@ == executable_names_of(os),
{
    let mut v: Vec<&'static str> = Vec::new();
    match os {
        TargetOs::Windows => {
            v.push("ffmpeg.exe");
            v.push("ffmpeg");
        },
        _ => {
            v.push("ffmpeg");
        },
    }
    assert(v@ =~= executable_names_of(os));
    v
}

/// The program name to run when no candidate file exists, left for the
/// system to find.
pub open spec fn fallback_program_of(os: TargetOs) -> Seq<char> {
    if os == TargetOs::Windows {
        "ffmpeg.exe"@
    } else {
        "ffmpeg"@
    }
}

/// The program name to run when no candidate file exists: never empty.
pub fn fallback_program_name(os: TargetOs) -> (r: &'static str)
    ensures
        r@ == fallback_program_of(os),
        r@.len() > 0,
{
    proof {
        reveal_strlit("ffmpeg.exe");
        reveal_strlit("ffmpeg");
    }
    match os {
        TargetOs::Windows => "ffmpeg.exe",
        _ => "ffmpeg",
    }
}

/// A place where FFmpeg may be.
#[derive(Debug, PartialEq, Eq, Clone, Copy)]
pub enum Candidate {
    /// The path that `FFMPEG_ENV_VAR` names.
    Override,
    /// The file `name` next to the running program.
    ExeDir(&'static str),
    /// The file `name` in the `index`-th directory of `PATH`.
    PathDir(usize, &'static str),
}

/// Each name in `names` in the directory of the running program.
pub open spec fn exe_dir_candidates(names: Seq<&'static str>) -> Seq<Candidate> {
    names.map_values(|name: &'static str| Candidate::ExeDir(name))
}

/// Each name in `names` in the `index`-th directory of `PATH`.
pub open spec fn path_dir_candidates(index: nat, names: Seq<&'static str>) -> Seq<Candidate> {
    names.map_values(|name: &'static str| Candidate::PathDir(index as usize, name))
}

/// Each name in each of the first `n` directories of `PATH`, directory by
/// directory.
pub open spec fn path_candidates(n: nat, names: Seq<&'static str>) -> Seq<Candidate>
    decreases n,
{
    if n == 0 {
        Seq::empty()
    } else {
        path_candidates((n - 1) as nat, names) + path_dir_candidates((n - 1) as nat, names)
    }
}

/// The places to look for FFmpeg, in order: the path the environment names,
/// then each name next to the running program, then each name in each
/// `PATH` directory.
pub open spec fn candidates_of(
    has_override: bool,
    has_exe_dir: bool,
    n_path_dirs: nat,
    os: TargetOs,
) -> Seq<Candidate> {
    let names = executable_names_of(os);
    (if has_override {
        seq![Candidate::Override]
    } else {
        Seq::empty()
    }) + (if has_exe_dir {
        exe_dir_candidates(names)
    } else {
        Seq::empty()
    }) + path_candidates(n_path_dirs, names)
}

/// Appends each of `names` in one place.
fn push_each(out: &mut Vec<Candidate>, names: &Vec<&'static str>, dir: Option<usize>)
    ensures
        final(out)@ == old(out)@ + match dir {
            None => exe_dir_candidates(names@),
            Some(i) => path_dir_candidates(i as nat, names@),
        },
{
    let ghost start = out@;
    let ghost target = match dir {
        None => exe_dir_candidates(names@),
        Some(i) => path_dir_candidates(i as nat, names@),
    };
    let mut k: usize = 0;
    while k < names.len()
        invariant
            k <= names@.len(),
            target.len() == names@.len(),
            target == match dir {
                None => exe_dir_candidates(names@),
                Some(i) => path_dir_candidates(i as nat, names@),
            },
            out@ == start + target.take(k as int),
        decreases names@.len() - k,
    {
        let c = match dir {
            None => Candidate::ExeDir(names[k]),
            Some(i) => Candidate::PathDir(i, names[k]),
        };
        out.push(c);
        proof {
            assert(target[k as int] == c);
            assert(target.take(k + 1) =~= target.take(k as int).push(c));
        }
        k = k + 1;
    }
    assert(target.take(names@.len() as int) =~= target);
}

/// There are as many `PATH` candidates as directories times names.
proof fn lemma_path_candidates_len(n: nat, names: Seq<&'static str>)
    ensures
        path_candidates(n, names).len() == n * names.len(),
    decreases n,
{
    if n > 0 {
        lemma_path_candidates_len((n - 1) as nat, names);
        assert(path_dir_candidates((n - 1) as nat, names).len() == names.len());
        assert((n - 1) * names.len() + names.len() == n * names.len()) by (nonlinear_arith);
    } else {
        assert(0 * names.len() == 0);
    }
}

/// A path named by the environment is tried before anything else; every
/// name is tried next to the running program and in every `PATH`
/// directory, so the list holds one entry per place and name.
pub proof fn lemma_candidate_order(has_override: bool, has_exe_dir: bool, n_path_dirs: nat, os: TargetOs)
    ensures
        has_override ==> candidates_of(has_override, has_exe_dir, n_path_dirs, os)[0]
            == Candidate::Override,
        candidates_of(has_override, has_exe_dir, n_path_dirs, os).len() == (if has_override {
            1nat
        } else {
            0nat
        }) + (if has_exe_dir {
            executable_names_of(os).len()
        } else {
            0nat
        }) + n_path_dirs * executable_names_of(os).len(),
{
    lemma_path_candidates_len(n_path_dirs, executable_names_of(os));
}

/// The places to look for FFmpeg, in the order they are tried.
pub fn candidate_paths(has_override: bool, has_exe_dir: bool, n_path_dirs: usize, os: TargetOs) -> (r:
    Vec<Candidate>)
    ensures
        r@ == candidates_of(has_override, has_exe_dir, n_path_dirs as nat, os),
{
    let names = executable_names(os);
    let mut out: Vec<Candidate> = Vec::new();
    if has_override {
        out.push(Candidate::Override);
    }
    if has_exe_dir {
        push_each(&mut out, &names, None);
    }
    let ghost head = out@;
    assert(head =~= (if has_override {
        seq![Candidate::Override]
    } else {
        Seq::empty()
    }) + (if has_exe_dir {
        exe_dir_candidates(names@)
    } else {
        Seq::empty()
    }));
    let mut d: usize = 0;
    assert(head + path_candidates(0, names@) =~= head);
    while d < n_path_dirs
        invariant
            d <= n_path_dirs,
            names@ == executable_names_of(os),
            out@ == head + path_candidates(d as nat, names@),
        decreases n_path_dirs - d,
    {
        push_each(&mut out, &names, Some(d));
        proof {
            assert(path_candidates((d + 1) as nat, names@) == path_candidates(d as nat, names@)
                + path_dir_candidates(d as nat, names@));
            assert(out@ =~= head + path_candidates((d + 1) as nat, names@));
        }
        d = d + 1;
    }
    out
}

/// The first place, in order, that holds a file, if any does.
pub fn first_existing(is_file: &Vec<bool>) -> (r: Option<usize>)
    ensures
        match r {
            Some(i) => i < is_file@.len() && is_file@[i as int] && forall|j: int|
                0 <= j < i ==> !is_file@[j],
            None => forall|j: int| 0 <= j < is_file@.len() ==> !is_file@[j],
        },
{
    let mut i: usize = 0;
    while i < is_file.len()
        invariant
            i <= is_file@.len(),
            forall|j: int| 0 <= j < i ==> !is_file@[j],
        decreases is_file@.len() - i,
    {
        if is_file[i] {
            return Some(i);
        }
        i = i + 1;
    }
    None
}

/// The message that tells the user FFmpeg is missing.
pub open spec fn ffmpeg_missing_message() -> Seq<char> {
    "FFmpeg is required to record video but was not found. Install FFmpeg and add it to PATH, or set KOOM_FFMPEG_PATH to the full path of ffmpeg.exe."@
}

/// Recording needs FFmpeg: `Ok` when the program ran, the message that asks
/// the user to install it otherwise.
pub fn ensure_ffmpeg_available(available: bool) -> (r: Result<(), String>)
    ensures
        r is Ok <==> available,
        match r {
            Ok(()) => true,
            Err(msg) => msg@ == ffmpeg_missing_message(),
        },
{
    if available {
        Ok(())
    } else {
        Err(
            String::from_str(
                "FFmpeg is required to record video but was not found. Install FFmpeg and add it to PATH, or set KOOM_FFMPEG_PATH to the full path of ffmpeg.exe.",
            ),
        )
    }
}

} // verus!
