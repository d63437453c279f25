//! Validation of the cargo arguments given to a cargo-make task, and what is
//! forwarded of them: flags appended to the space-delimited flags that
//! cargo-make hands to `cargo build` and `cargo test`, and `KEY=VALUE` lines
//! that cargo-make reads back from standard output.
use vstd::prelude::*;
use vstd::string::{StrSliceExecFns, StringExecFns};

use crate::text::{concat, strings_view};

verus! {

/// `x` alone when `b` holds, else nothing.
pub open spec fn when(b: bool, x: Seq<char>) -> Seq<Seq<char>> {
    if b {
        seq![x]
    } else {
        seq![]
    }
}

/// `flag`, the value and a space, for each value in turn: with `flag` equal to
/// `--package `, the text `--package a --package b `.
pub open spec fn repeated_flag(flag: Seq<char>, values: Seq<String>) -> Seq<char>
    decreases values.len(),
{
    if values.len() == 0 {
        seq![]
    } else {
        repeated_flag(flag, values.drop_last()) + flag + values.last()@ + seq![' ']
    }
}

/// What `str::trim` returns for a string.
pub uninterp spec fn trimmed(s: Seq<char>) -> Seq<char>;

/// What `str::trim_end` returns for a string.
pub uninterp spec fn trimmed_end(s: Seq<char>) -> Seq<char>;

/// Relies on `str::trim`: the string without its leading and trailing
/// whitespace, which depends on its characters alone.
#[verifier::external_body]
fn trim(s: &str) -> (r: String)
    ensures
        r@ == trimmed(s@),
{
    s.trim().to_owned()
}

/// Relies on `str::trim_end`: the string without its trailing whitespace,
/// which depends on its characters alone.
#[verifier::external_body]
fn trim_end(s: &str) -> (r: String)
    ensures
        r@ == trimmed_end(s@),
{
    s.trim_end().to_owned()
}

fn push_flag(v: &mut Vec<String>, s: String)
    ensures
        strings_view(final(v)@) == strings_view(old(v)@).push(s@),
{
    let ghost before = v@;
    v.push(s);
    assert(strings_view(v@) =~= strings_view(before).push(s@));
}

/// The text `flag v1 flag v2 ... ` for the values in turn.
fn repeated_flag_string(flag: &str, values: &Vec<String>) -> (r: String)
    ensures
        r@ == repeated_flag(flag@, values@),
{
    let mut s = String::new();
    let mut i: usize = 0;
    while i < values.len()
        invariant
            i <= values@.len(),
            s@ == repeated_flag(flag@, values@.take(i as int)),
        decreases values@.len() - i,
    {
        assert(values@.take(i + 1).drop_last() =~= values@.take(i as int));
        s.append(flag);
        s.append(values[i].as_str());
        proof { reveal_strlit(" "); }
        s.append(" ");
        i += 1;
    }
    assert(values@.take(values@.len() as int) =~= values@);
    s
}

/// `existing` with `appended` added after a space, with the whitespace around
/// the whole trimmed: how one more flag joins a space-delimited list.
pub fn append_to_space_delimited(existing: &str, appended: &str) -> (r: String)
    ensures
        r@ == trimmed(existing@ + seq![' '] + appended@),
{
    let mut s = existing.to_owned();
    proof { reveal_strlit(" "); }
    s.append(" ");
    s.append(appended);
    assert(s@ =~= existing@ + seq![' '] + appended@);
    trim(s.as_str())
}

/// `prepended`, a `;` and `existing`: how one more entry goes in front of a
/// semicolon-delimited list such as `Path`.
pub fn prepend_to_semicolon_delimited(existing: &str, prepended: &str) -> (r: String)
    ensures
        r@ == prepended@ + seq![';'] + existing@,
{
    let mut s = prepended.to_owned();
    proof { reveal_strlit(";"); }
    s.append(";");
    s.append(existing);
    assert(s@ =~= prepended@ + seq![';'] + existing@);
    s
}

/// A combination of arguments that cannot be forwarded.
#[derive(Debug, Clone, PartialEq, Eq)]
pub enum UsageError {
    /// `--quiet` was given together with `--verbose`.
    QuietWithVerbose,
    /// `--exclude` was given without `--workspace`.
    ExcludeWithoutWorkspace,
    /// `--release` was given together with `--profile`.
    ReleaseWithProfile,
    /// The cargo-make `release` profile was chosen together with
    /// `--profile <profile>` for another profile.
    ProfileConflict { profile: String },
}

/// The toolchain that an argument `+<toolchain>` selects, if it is one.
pub open spec fn toolchain_of(arg: Seq<char>) -> Option<Seq<char>> {
    if arg.len() > 0 && arg[0] == '+' {
        Some(arg.drop_first())
    } else {
        None
    }
}

/// The toolchain named by an argument of the form `+<toolchain>`, which cargo
/// accepts only right after its own name.
pub fn toolchain_arg(arg: &str) -> (r: Option<String>)
    ensures
        r matches Some(t) ==> toolchain_of(arg@) == Some(t@),
        r is None ==> toolchain_of(arg@) is None,
{
    let n = arg.unicode_len();
    if n > 0 && arg.get_char(0) == '+' {
        let rest = arg.substring_char(1, n).to_owned();
        assert(rest@ =~= arg@.drop_first());
        Some(rest)
    } else {
        None
    }
}

/// `-` followed by `n` times `v`.
pub open spec fn verbose_flag(n: nat) -> Seq<char> {
    seq!['-'] + Seq::new(n, |_i: int| 'v')
}

/// Options that cargo takes for every command.
pub struct BaseOptions {
    /// `--quiet`
    pub quiet: bool,
    /// How often `-v` was given.
    pub verbose: u8,
}

impl BaseOptions {
    /// The flags forwarded for these options.
    pub open spec fn flags(&self) -> Seq<Seq<char>> {
        when(self.quiet, "--quiet"@) + when(self.verbose > 0, verbose_flag(self.verbose as nat))
    }

    /// Checks the options and gives the flags to forward: `--quiet`, then `-v`
    /// repeated as often as it was given. Quiet and verbose output exclude
    /// each other.
    pub fn forwarded_args(&self) -> (r: Result<Vec<String>, UsageError>)
        ensures
            self.quiet && self.verbose > 0 ==> r == Err::<Vec<String>, UsageError>(
                UsageError::QuietWithVerbose,
            ),
            !(self.quiet && self.verbose > 0) ==> (r matches Ok(v) && strings_view(v@)
                == self.flags()),
    {
        if self.quiet && self.verbose > 0 {
            return Err(UsageError::QuietWithVerbose);
        }
        let mut flags: Vec<String> = Vec::new();
        if self.quiet {
            push_flag(&mut flags, "--quiet".to_owned());
        }
        if self.verbose > 0 {
            proof {
                reveal_strlit("-");
                reveal_strlit("v");
            }
            let mut s = "-".to_owned();
            let mut i: u8 = 0;
            while i < self.verbose
                invariant
                    i <= self.verbose,
                    s@ == verbose_flag(i as nat),
                decreases self.verbose - i,
            {
                proof { reveal_strlit("v"); }
                s.append("v");
                i += 1;
                assert(s@ =~= verbose_flag(i as nat));
            }
            push_flag(&mut flags, s);
        }
        assert(strings_view(flags@) =~= self.flags());
        Ok(flags)
    }
}

/// Package selection.
pub struct WorkspaceOptions {
    /// `--package <spec>`, for each spec given.
    pub package: Vec<String>,
    /// `--workspace`
    pub workspace: bool,
    /// `--all`, the older name of `--workspace`.
    pub all: bool,
    /// `--exclude <spec>`, for each spec given.
    pub exclude: Vec<String>,
}

impl WorkspaceOptions {
    /// The flags forwarded for these options.
    pub open spec fn flags(&self) -> Seq<Seq<char>> {
        when(self.package@.len() > 0, trimmed_end(repeated_flag("--package "@, self.package@)))
            + when(self.workspace, "--workspace"@) + when(
            self.exclude@.len() > 0,
            trimmed_end(repeated_flag("--exclude "@, self.exclude@)),
        ) + when(self.all, "--all"@)
    }

    /// Checks the options and gives the flags to forward: the packages, then
    /// `--workspace`, the exclusions and `--all`. Excluding packages needs
    /// `--workspace`.
    pub fn forwarded_args(&self) -> (r: Result<Vec<String>, UsageError>)
        ensures
            self.exclude@.len() > 0 && !self.workspace ==> r == Err::<Vec<String>, UsageError>(
                UsageError::ExcludeWithoutWorkspace,
            ),
            !(self.exclude@.len() > 0 && !self.workspace) ==> (r matches Ok(v) && strings_view(
                v@,
            ) == self.flags()),
    {
        let mut flags: Vec<String> = Vec::new();
        if self.package.len() > 0 {
            let s = repeated_flag_string("--package ", &self.package);
            push_flag(&mut flags, trim_end(s.as_str()));
        }
        if self.workspace {
            push_flag(&mut flags, "--workspace".to_owned());
        }
        if self.exclude.len() > 0 {
            if !self.workspace {
                return Err(UsageError::ExcludeWithoutWorkspace);
            }
            let s = repeated_flag_string("--exclude ", &self.exclude);
            push_flag(&mut flags, trim_end(s.as_str()));
        }
        if self.all {
            push_flag(&mut flags, "--all".to_owned());
        }
        assert(strings_view(flags@) =~= self.flags());
        Ok(flags)
    }
}

/// Feature selection.
pub struct FeatureOptions {
    /// `--all-features`
    pub all_features: bool,
    /// `--no-default-features`
    pub no_default_features: bool,
    /// `--features <name>`, for each name given.
    pub features: Vec<String>,
}

impl FeatureOptions {
    /// The flags forwarded for these options.
    pub open spec fn flags(&self) -> Seq<Seq<char>> {
        when(self.all_features, "--all-features"@) + when(
            self.no_default_features,
            "--no-default-features"@,
        ) + when(
            self.features@.len() > 0,
            trimmed_end(repeated_flag("--features "@, self.features@)),
        )
    }

    /// The flags to forward: `--all-features`, `--no-default-features`, then
    /// the features.
    pub fn forwarded_args(&self) -> (r: Vec<String>)
        ensures
            strings_view(r@) == self.flags(),
    {
        let mut flags: Vec<String> = Vec::new();
        if self.all_features {
            push_flag(&mut flags, "--all-features".to_owned());
        }
        if self.no_default_features {
            push_flag(&mut flags, "--no-default-features".to_owned());
        }
        if self.features.len() > 0 {
            let s = repeated_flag_string("--features ", &self.features);
            push_flag(&mut flags, trim_end(s.as_str()));
        }
        assert(strings_view(flags@) =~= self.flags());
        flags
    }
}

/// Options on the state of `Cargo.lock` and the network.
pub struct ManifestOptions {
    /// `--frozen`
    pub frozen: bool,
    /// `--locked`
    pub locked: bool,
    /// `--offline`
    pub offline: bool,
}

impl ManifestOptions {
    /// The flags forwarded for these options.
    pub open spec fn flags(&self) -> Seq<Seq<char>> {
        when(self.frozen, "--frozen"@) + when(self.locked, "--locked"@) + when(
            self.offline,
            "--offline"@,
        )
    }

    /// The flags to forward: `--frozen`, `--locked`, `--offline`.
    pub fn forwarded_args(&self) -> (r: Vec<String>)
        ensures
            strings_view(r@) == self.flags(),
    {
        let mut flags: Vec<String> = Vec::new();
        if self.frozen {
            push_flag(&mut flags, "--frozen".to_owned());
        }
        if self.locked {
            push_flag(&mut flags, "--locked".to_owned());
        }
        if self.offline {
            push_flag(&mut flags, "--offline".to_owned());
        }
        assert(strings_view(flags@) =~= self.flags());
        flags
    }
}

/// What forwarding one group of options gives.
pub struct Forwarding {
    /// Flags to append to the flags of `cargo build` and `cargo test`.
    pub flags: Vec<String>,
    /// `KEY=VALUE` lines to print for cargo-make, in this order.
    pub printed: Vec<String>,
}

/// `prefix` followed by the value, if there is one.
pub open spec fn with_value(prefix: Seq<char>, value: Option<String>) -> Seq<Seq<char>> {
    match value {
        Some(v) => seq![prefix + v@],
        None => seq![],
    }
}

/// Compilation options.
pub struct CompilationOptions {
    /// `--release`
    pub release: bool,
    /// `--profile <name>`
    pub profile: Option<String>,
    /// `--jobs <n>`
    pub jobs: Option<String>,
    /// `--target <triple>`
    pub target: Option<String>,
    /// `--timings`, with or without `=<formats>`.
    pub timings: Option<Option<String>>,
}

impl CompilationOptions {
    /// The error, if any, for these options under the cargo-make profile
    /// `make_profile`.
    pub open spec fn usage_error(&self, make_profile: Seq<char>) -> Option<UsageError> {
        if self.release && self.profile is Some {
            Some(UsageError::ReleaseWithProfile)
        } else if make_profile == "release"@ {
            match self.profile {
                Some(p) => if p@ != "release"@ {
                    Some(UsageError::ProfileConflict { profile: p })
                } else {
                    None
                },
                None => None,
            }
        } else {
            None
        }
    }

    /// The flags forwarded for these options under the cargo-make profile
    /// `make_profile`. That profile's `release` passes `--profile release`
    /// itself; under any other, `--release` or `--profile` is passed on.
    pub open spec fn flags(&self, make_profile: Seq<char>) -> Seq<Seq<char>> {
        (if make_profile == "release"@ {
            seq!["--profile release"@]
        } else if self.release {
            seq!["--release"@]
        } else {
            with_value("--profile "@, self.profile)
        }) + with_value("--jobs "@, self.jobs) + with_value("--target "@, self.target) + match self.timings {
            Some(Some(v)) => seq!["--timings "@ + v@],
            Some(None) => seq!["--timings"@],
            None => seq![],
        }
    }

    /// The lines printed for these options under the cargo-make profile
    /// `make_profile`: the cargo profile chosen, then the target triple.
    pub open spec fn printed(&self, make_profile: Seq<char>) -> Seq<Seq<char>> {
        (if make_profile == "release"@ {
            seq![]
        } else if self.release {
            seq!["CARGO_MAKE_CARGO_PROFILE=release"@]
        } else {
            with_value("CARGO_MAKE_CARGO_PROFILE="@, self.profile)
        }) + with_value("CARGO_MAKE_CRATE_TARGET_TRIPLE="@, self.target)
    }

    /// Checks the options under the cargo-make profile `make_profile` and
    /// gives what to forward.
    pub fn forwarded_args(&self, make_profile: &String) -> (r: Result<Forwarding, UsageError>)
        ensures
            self.usage_error(make_profile@) matches Some(e) ==> r == Err::<Forwarding, UsageError>(
                e,
            ),
            self.usage_error(make_profile@) is None ==> (r matches Ok(f) && strings_view(f.flags@)
                == self.flags(make_profile@) && strings_view(f.printed@) == self.printed(
                make_profile@,
            )),
    {
        if self.release && self.profile.is_some() {
            return Err(UsageError::ReleaseWithProfile);
        }
        let release = "release".to_owned();
        let mut flags: Vec<String> = Vec::new();
        let mut printed: Vec<String> = Vec::new();
        if *make_profile == release {
            if let Some(profile) = &self.profile {
                if *profile != release {
                    return Err(UsageError::ProfileConflict { profile: profile.clone() });
                }
            }
            push_flag(&mut flags, "--profile release".to_owned());
        } else if self.release {
            push_flag(&mut printed, "CARGO_MAKE_CARGO_PROFILE=release".to_owned());
            push_flag(&mut flags, "--release".to_owned());
        } else if let Some(profile) = &self.profile {
            push_flag(&mut printed, concat("CARGO_MAKE_CARGO_PROFILE=", profile.as_str()));
            push_flag(&mut flags, concat("--profile ", profile.as_str()));
        }
        if let Some(jobs) = &self.jobs {
            push_flag(&mut flags, concat("--jobs ", jobs.as_str()));
        }
        if let Some(target) = &self.target {
            push_flag(&mut printed, concat("CARGO_MAKE_CRATE_TARGET_TRIPLE=", target.as_str()));
            push_flag(&mut flags, concat("--target ", target.as_str()));
        }
        if let Some(timings) = &self.timings {
            match timings {
                Some(value) => push_flag(&mut flags, concat("--timings ", value.as_str())),
                None => push_flag(&mut flags, "--timings".to_owned()),
            }
        }
        assert(strings_view(flags@) =~= self.flags(make_profile@));
        assert(strings_view(printed@) =~= self.printed(make_profile@));
        Ok(Forwarding { flags, printed })
    }
}

/// The directory that the build output of a driver goes to: below the target
/// directory, the target triple when one is given, then `debug` for the `dev`
/// profile and the profile's own name for any other.
pub open spec fn build_output_dir(
    target_dir: Seq<char>,
    target: Option<String>,
    cargo_profile: Seq<char>,
) -> Seq<char> {
    target_dir + match target {
        Some(t) => "/"@ + t@,
        None => seq![],
    } + if cargo_profile == "dev"@ {
        "/debug"@
    } else {
        "/"@ + cargo_profile
    }
}

/// Where cargo puts the build output for the given target directory, target
/// triple and cargo profile.
pub fn wdf_build_output_dir(
    target_dir: &str,
    target: &Option<String>,
    cargo_profile: &String,
) -> (r: String)
    ensures
        r@ == build_output_dir(target_dir@, *target, cargo_profile@),
{
    let mut output_dir = target_dir.to_owned();
    if let Some(target) = target {
        output_dir.append("/");
        output_dir.append(target.as_str());
    }
    if *cargo_profile == "dev".to_owned() {
        output_dir.append("/debug");
    } else {
        output_dir.append("/");
        output_dir.append(cargo_profile.as_str());
    }
    output_dir
}

} // verus!
