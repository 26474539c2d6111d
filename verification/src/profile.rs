//! Profiles: which names are accepted, which are reserved for commands, and
//! how a command line is turned into a launch of Neovim (the profile, the
//! `NVIM_APPNAME` it sets, and the arguments it passes through).
use vstd::prelude::*;
use crate::config::Config;
use crate::paths::{single_component, xdg_base, xdg_nvim_root, body_start, is_absolute, is_real_segment, last_sep_in, lemma_last_sep_range, path_join, path_parent, seg_size, seg_start, trim_end};
use crate::text::{chars_of, concat_str, has_char, lemma_lex_total, lemma_lex_trans, lex_le, lex_le_str, opt_view, str_eq, strings_view, starts_with_char};

verus! {

/// A character that a profile name may hold: an ASCII letter or digit, `-`
/// or `_`.
pub open spec fn is_name_char(c: char) -> bool {
    ('a' <= c && c <= 'z') || ('A' <= c && c <= 'Z') || ('0' <= c && c <= '9') || c == '-' || c
        == '_'
}

/// A profile name: 1 to 64 characters, each a name character. (All of them
/// are ASCII, so the count of characters is the count of bytes.)
pub open spec fn valid_profile_name(name: Seq<char>) -> bool {
    0 < name.len() <= 64 && forall|i: int| 0 <= i < name.len() ==> is_name_char(#[trigger] name[i])
}

/// Strict profile name validation, which keeps profile names from reaching
/// outside the profiles directory.
pub fn is_valid_profile_name(name: &str) -> (r: bool)
    ensures
        r == valid_profile_name(name@),
{
    let v = chars_of(name);
    if v.len() == 0 || v.len() > 64 {
        return false;
    }
    let mut i: usize = 0;
    while i < v.len()
        invariant
            v@ == name@,
            i <= v.len(),
            forall|k: int| 0 <= k < i ==> is_name_char(#[trigger] v@[k]),
        decreases v.len() - i,
    {
        let c = v[i];
        if !(('a' <= c && c <= 'z') || ('A' <= c && c <= 'Z') || ('0' <= c && c <= '9') || c == '-'
            || c == '_') {
            return false;
        }
        i = i + 1;
    }
    true
}

/// The names of the commands, which no profile may take.
pub open spec fn is_reserved(name: Seq<char>) -> bool {
    ||| name == "list"@
    ||| name == "install"@
    ||| name == "clean"@
    ||| name == "doctor"@
    ||| name == "setup"@
    ||| name == "sandbox"@
    ||| name == "registry"@
    ||| name == "update"@
    ||| name == "completions"@
    ||| name == "help"@
    ||| name == "repro"@
    ||| name == "debug"@
}

/// Whether `name` is the name of a command and so cannot name a profile.
pub fn is_reserved_name(name: &str) -> (r: bool)
    ensures
        r == is_reserved(name@),
{
    str_eq(name, "list") || str_eq(name, "install") || str_eq(name, "clean") || str_eq(
        name,
        "doctor",
    ) || str_eq(name, "setup") || str_eq(name, "sandbox") || str_eq(name, "registry") || str_eq(
        name,
        "update",
    ) || str_eq(name, "completions") || str_eq(name, "help") || str_eq(name, "repro") || str_eq(
        name,
        "debug",
    )
}

/// What Neovim's `NVIM_APPNAME` becomes when no profile is launched.
#[derive(Clone, Copy, PartialEq, Eq, Structural, Debug)]
pub enum ProfileFallback {
    /// Remove it, so that plain Neovim runs.
    ClearOnNone,
    /// Leave it as the environment has it.
    Preserve,
}

/// The outcome of reading the command line: the profile to run, whether the
/// user named it, and the arguments meant for Neovim.
pub struct Resolution {
    pub profile: Option<String>,
    pub is_explicit: bool,
    pub args: Vec<String>,
}

pub struct ResolutionView {
    pub profile: Option<Seq<char>>,
    pub is_explicit: bool,
    pub args: Seq<Seq<char>>,
}

impl View for Resolution {
    type V = ResolutionView;

    open spec fn view(&self) -> ResolutionView {
        ResolutionView {
            profile: opt_view(self.profile),
            is_explicit: self.is_explicit,
            args: strings_view(self.args@),
        }
    }
}

/// The first argument names a profile when it is a valid profile name and
/// a directory of that name exists (`first_is_dir`); then the rest are
/// Neovim's arguments. Otherwise it is an argument for Neovim too (a file or
/// a flag) and the default profile applies.
pub open spec fn resolve_spec(
    first: Option<Seq<char>>,
    rest: Seq<Seq<char>>,
    default_profile: Option<Seq<char>>,
    first_is_dir: bool,
) -> ResolutionView {
    match first {
        Some(a) => if valid_profile_name(a) && first_is_dir {
            ResolutionView { profile: Some(a), is_explicit: true, args: rest }
        } else {
            ResolutionView { profile: default_profile, is_explicit: false, args: seq![a] + rest }
        },
        None => ResolutionView { profile: default_profile, is_explicit: false, args: rest },
    }
}

fn clone_opt(o: &Option<String>) -> (r: Option<String>)
    ensures
        r == *o,
{
    match o {
        Some(s) => Some(s.clone()),
        None => None,
    }
}

/// Reads the command line: `first_arg` and `rest_args` as given,
/// `first_arg_is_profile_dir` whether the profiles directory holds a
/// directory named by the first argument (consulted only when that is a
/// valid profile name).
pub fn resolve_target(
    first_arg: Option<String>,
    rest_args: Vec<String>,
    config: &Config,
    first_arg_is_profile_dir: bool,
) -> (r: Resolution)
    ensures
        r@ == resolve_spec(
            opt_view(first_arg),
            strings_view(rest_args@),
            opt_view(config.default_profile),
            first_arg_is_profile_dir,
        ),
{
    match first_arg {
        Some(arg) => {
            if is_valid_profile_name(arg.as_str()) && first_arg_is_profile_dir {
                Resolution { profile: Some(arg), is_explicit: true, args: rest_args }
            } else {
                let ghost a = arg@;
                let mut all = rest_args;
                all.insert(0, arg);
                proof {
                    assert(strings_view(all@) =~= seq![a] + strings_view(rest_args@));
                }
                Resolution {
                    profile: clone_opt(&config.default_profile),
                    is_explicit: false,
                    args: all,
                }
            }
        },
        None => Resolution {
            profile: clone_opt(&config.default_profile),
            is_explicit: false,
            args: rest_args,
        },
    }
}

/// A launch of Neovim: with a profile or without one, and the arguments.
pub struct NvimLaunch {
    pub profile: Option<String>,
    pub fallback: ProfileFallback,
    pub args: Vec<String>,
}

pub struct LaunchView {
    pub profile: Option<Seq<char>>,
    pub fallback: ProfileFallback,
    pub args: Seq<Seq<char>>,
}

impl View for NvimLaunch {
    type V = LaunchView;

    open spec fn view(&self) -> LaunchView {
        LaunchView {
            profile: opt_view(self.profile),
            fallback: self.fallback,
            args: strings_view(self.args@),
        }
    }
}

/// Why no launch takes place.
pub enum LaunchError {
    /// The profile is missing and strict mode forbids any fallback.
    StrictModeNotFound(String),
    /// The profile is missing and no fallback is configured.
    NotFound(String),
    /// The profile name would not be safe to use.
    InvalidProfileName(String),
}

pub enum LaunchErrorView {
    StrictModeNotFound(Seq<char>),
    NotFound(Seq<char>),
    InvalidProfileName(Seq<char>),
}

impl View for LaunchError {
    type V = LaunchErrorView;

    open spec fn view(&self) -> LaunchErrorView {
        match self {
            LaunchError::StrictModeNotFound(n) => LaunchErrorView::StrictModeNotFound(n@),
            LaunchError::NotFound(n) => LaunchErrorView::NotFound(n@),
            LaunchError::InvalidProfileName(n) => LaunchErrorView::InvalidProfileName(n@),
        }
    }
}

/// The text of a launch error.
pub open spec fn launch_error_text(e: LaunchErrorView) -> Seq<char> {
    match e {
        LaunchErrorView::StrictModeNotFound(n) => "profile '"@ + n
            + "' not found (strict mode enabled)"@,
        LaunchErrorView::NotFound(n) => "profile '"@ + n + "' not found"@,
        LaunchErrorView::InvalidProfileName(n) => "refusing to launch with invalid profile name: '"@
            + n + "'"@,
    }
}

impl LaunchError {
    /// The error's text.
    pub fn message(&self) -> (r: String)
        ensures
            r@ == launch_error_text(self@),
    {
        match self {
            LaunchError::StrictModeNotFound(n) => {
                let a = concat_str("profile '", n.as_str());
                concat_str(a.as_str(), "' not found (strict mode enabled)")
            },
            LaunchError::NotFound(n) => {
                let a = concat_str("profile '", n.as_str());
                concat_str(a.as_str(), "' not found")
            },
            LaunchError::InvalidProfileName(n) => {
                let a = concat_str("refusing to launch with invalid profile name: '", n.as_str());
                concat_str(a.as_str(), "'")
            },
        }
    }
}

/// What to do with a resolved command line.
pub enum LaunchPlan {
    /// Launch Neovim.
    Exec(NvimLaunch),
    /// Print the warning, then launch Neovim.
    WarnThenExec(String, NvimLaunch),
    /// Let the user pick a profile; the arguments are Neovim's.
    Pick(Vec<String>),
    /// Stop with the error.
    Fail(LaunchError),
}

pub enum PlanView {
    Exec(LaunchView),
    WarnThenExec(Seq<char>, LaunchView),
    Pick(Seq<Seq<char>>),
    Fail(LaunchErrorView),
}

impl View for LaunchPlan {
    type V = PlanView;

    open spec fn view(&self) -> PlanView {
        match self {
            LaunchPlan::Exec(l) => PlanView::Exec(l@),
            LaunchPlan::WarnThenExec(w, l) => PlanView::WarnThenExec(w@, l@),
            LaunchPlan::Pick(a) => PlanView::Pick(strings_view(a@)),
            LaunchPlan::Fail(e) => PlanView::Fail(e@),
        }
    }
}

/// The warning when a profile that the user named is missing.
pub open spec fn named_profile_missing_text(name: Seq<char>) -> Seq<char> {
    "profile '"@ + name + "' not found \u{2014} falling back to vanilla nvim"@
}

/// The warning when the default profile is missing.
pub open spec fn default_profile_missing_text(name: Seq<char>) -> Seq<char> {
    "default profile '"@ + name + "' not found \u{2014} using vanilla nvim"@
}

/// A launch of plain Neovim, with `NVIM_APPNAME` removed.
pub open spec fn vanilla(args: Seq<Seq<char>>) -> LaunchView {
    LaunchView { profile: None, fallback: ProfileFallback::ClearOnNone, args }
}

/// The plan for a resolution `res`: a present profile is launched; a
/// missing one fails in strict mode, else falls back as configured (for a
/// named profile: plain Neovim or an error; for the default profile: the
/// picker, plain Neovim, or an error). Without a profile, the picker runs
/// or plain Neovim.
pub open spec fn plan_spec(
    res: ResolutionView,
    profile_present: bool,
    strict_mode: bool,
    use_fzf: bool,
    fallback_to_plain_nvim: bool,
) -> PlanView {
    match res.profile {
        Some(name) => if profile_present {
            PlanView::Exec(
                LaunchView {
                    profile: Some(name),
                    fallback: ProfileFallback::Preserve,
                    args: res.args,
                },
            )
        } else if strict_mode {
            PlanView::Fail(LaunchErrorView::StrictModeNotFound(name))
        } else if res.is_explicit {
            if fallback_to_plain_nvim {
                PlanView::WarnThenExec(named_profile_missing_text(name), vanilla(res.args))
            } else {
                PlanView::Fail(LaunchErrorView::NotFound(name))
            }
        } else if use_fzf {
            PlanView::Pick(res.args)
        } else if fallback_to_plain_nvim {
            PlanView::WarnThenExec(default_profile_missing_text(name), vanilla(res.args))
        } else {
            PlanView::Fail(LaunchErrorView::NotFound(name))
        },
        None => if use_fzf {
            PlanView::Pick(res.args)
        } else {
            PlanView::Exec(vanilla(res.args))
        },
    }
}

/// Plans the launch for `res`; `profile_present` says whether the profile
/// directory of `res.profile` exists (consulted only when there is a
/// profile).
pub fn plan_launch(res: Resolution, profile_present: bool, config: &Config) -> (r: LaunchPlan)
    ensures
        r@ == plan_spec(
            res@,
            profile_present,
            config.strict_mode,
            config.use_fzf,
            config.fallback_to_plain_nvim,
        ),
{
    match res.profile {
        Some(name) => {
            if profile_present {
                LaunchPlan::Exec(
                    NvimLaunch {
                        profile: Some(name),
                        fallback: ProfileFallback::Preserve,
                        args: res.args,
                    },
                )
            } else if config.strict_mode {
                LaunchPlan::Fail(LaunchError::StrictModeNotFound(name))
            } else if res.is_explicit {
                if config.fallback_to_plain_nvim {
                    let a = concat_str("profile '", name.as_str());
                    let w = concat_str(
                        a.as_str(),
                        "' not found \u{2014} falling back to vanilla nvim",
                    );
                    LaunchPlan::WarnThenExec(
                        w,
                        NvimLaunch {
                            profile: None,
                            fallback: ProfileFallback::ClearOnNone,
                            args: res.args,
                        },
                    )
                } else {
                    LaunchPlan::Fail(LaunchError::NotFound(name))
                }
            } else if config.use_fzf {
                LaunchPlan::Pick(res.args)
            } else if config.fallback_to_plain_nvim {
                let a = concat_str("default profile '", name.as_str());
                let w = concat_str(a.as_str(), "' not found \u{2014} using vanilla nvim");
                LaunchPlan::WarnThenExec(
                    w,
                    NvimLaunch {
                        profile: None,
                        fallback: ProfileFallback::ClearOnNone,
                        args: res.args,
                    },
                )
            } else {
                LaunchPlan::Fail(LaunchError::NotFound(name))
            }
        },
        None => {
            if config.use_fzf {
                LaunchPlan::Pick(res.args)
            } else {
                LaunchPlan::Exec(
                    NvimLaunch {
                        profile: None,
                        fallback: ProfileFallback::ClearOnNone,
                        args: res.args,
                    },
                )
            }
        },
    }
}

/// What happens to `NVIM_APPNAME` when Neovim is launched.
pub enum AppNameEnv {
    /// Set it to this value.
    Assign(String),
    /// Remove it.
    Remove,
    /// Leave it as it is.
    Inherit,
}

pub enum AppNameView {
    Assign(Seq<char>),
    Remove,
    Inherit,
}

impl View for AppNameEnv {
    type V = AppNameView;

    open spec fn view(&self) -> AppNameView {
        match self {
            AppNameEnv::Assign(v) => AppNameView::Assign(v@),
            AppNameEnv::Remove => AppNameView::Remove,
            AppNameEnv::Inherit => AppNameView::Inherit,
        }
    }
}

/// The environment of a launch: a profile `p` maps to `NVIM_APPNAME=nvim/p`,
/// provided `p` is a valid name; without a profile the fallback decides.
/// Neovim puts each of its XDG directories under that name, so a profile's
/// configuration, data, state and cache lie in `nvim/p` of the four XDG
/// homes, apart from every other profile's and from the plain `nvim` ones.
pub open spec fn appname_spec(profile: Option<Seq<char>>, fallback: ProfileFallback) -> Result<AppNameView, LaunchErrorView> {
    match profile {
        Some(p) => if valid_profile_name(p) {
            Ok(AppNameView::Assign("nvim/"@ + p))
        } else {
            Err(LaunchErrorView::InvalidProfileName(p))
        },
        None => match fallback {
            ProfileFallback::ClearOnNone => Ok(AppNameView::Remove),
            ProfileFallback::Preserve => Ok(AppNameView::Inherit),
        },
    }
}

/// The `NVIM_APPNAME` setting of `launch`, by the rule of `appname_spec`.
pub fn appname_env(launch: &NvimLaunch) -> (r: Result<AppNameEnv, LaunchError>)
    ensures
        match r {
            Ok(e) => appname_spec(opt_view(launch.profile), launch.fallback) == Ok::<
                AppNameView,
                LaunchErrorView,
            >(e@),
            Err(e) => appname_spec(opt_view(launch.profile), launch.fallback) == Err::<
                AppNameView,
                LaunchErrorView,
            >(e@),
        },
{
    match &launch.profile {
        Some(p) => {
            if is_valid_profile_name(p.as_str()) {
                Ok(AppNameEnv::Assign(concat_str("nvim/", p.as_str())))
            } else {
                Err(LaunchError::InvalidProfileName(p.clone()))
            }
        },
        None => match launch.fallback {
            ProfileFallback::ClearOnNone => Ok(AppNameEnv::Remove),
            ProfileFallback::Preserve => Ok(AppNameEnv::Inherit),
        },
    }
}

/// An entry of the profiles directory: its name, and whether it is a
/// directory.
pub struct DirEntryInfo {
    pub name: String,
    pub is_dir: bool,
}

/// Which entries of the profiles directory count as profiles.
#[derive(Clone, Copy, PartialEq, Eq, Structural, Debug)]
pub enum EntryFilter {
    /// Offered by the picker: directories whose name begins with neither `.`
    /// nor `_`.
    Picker,
    /// Listed and counted: directories whose name does not begin with `.`.
    Listing,
}

/// Whether an entry passes `filter`.
pub open spec fn keeps_entry(filter: EntryFilter, name: Seq<char>, is_dir: bool) -> bool {
    let hidden = name.len() > 0 && name[0] == '.';
    let private = name.len() > 0 && name[0] == '_';
    match filter {
        EntryFilter::Picker => is_dir && !hidden && !private,
        EntryFilter::Listing => is_dir && !hidden,
    }
}

/// The names of the entries that pass `filter`, in their order.
pub open spec fn selected_names(entries: Seq<DirEntryInfo>, filter: EntryFilter) -> Seq<Seq<char>>
    decreases entries.len(),
{
    if entries.len() == 0 {
        Seq::<Seq<char>>::empty()
    } else {
        let rest = selected_names(entries.drop_last(), filter);
        let e = entries.last();
        if keeps_entry(filter, e.name@, e.is_dir) {
            rest.push(e.name@)
        } else {
            rest
        }
    }
}

/// The names of the entries that pass `filter`, in their order.
pub fn select_entries(entries: &Vec<DirEntryInfo>, filter: EntryFilter) -> (r: Vec<String>)
    ensures
        strings_view(r@) == selected_names(entries@, filter),
{
    let mut out: Vec<String> = Vec::new();
    let mut i: usize = 0;
    while i < entries.len()
        invariant
            i <= entries.len(),
            strings_view(out@) == selected_names(entries@.subrange(0, i as int), filter),
        decreases entries.len() - i,
    {
        let e = &entries[i];
        let hidden = starts_with_char(e.name.as_str(), '.');
        let private = starts_with_char(e.name.as_str(), '_');
        let keep = match filter {
            EntryFilter::Picker => e.is_dir && !hidden && !private,
            EntryFilter::Listing => e.is_dir && !hidden,
        };
        let ghost before = out@;
        proof {
            assert(entries@.subrange(0, i + 1).drop_last() =~= entries@.subrange(0, i as int));
        }
        if keep {
            out.push(e.name.clone());
            proof {
                assert(strings_view(out@) =~= strings_view(before).push(e.name@));
            }
        }
        i = i + 1;
    }
    proof {
        assert(entries@.subrange(0, entries@.len() as int) =~= entries@);
    }
    out
}

/// What follows the listing of the profiles directory for the picker: with
/// no candidates, plain Neovim is launched at once (`Some`); else the picker
/// is shown (`None`).
pub fn launch_without_candidates(candidates: &Vec<String>, args: Vec<String>) -> (r: Option<NvimLaunch>)
    ensures
        candidates@.len() == 0 <==> r is Some,
        r matches Some(l) ==> l@ == vanilla(strings_view(args@)),
{
    if candidates.len() == 0 {
        Some(NvimLaunch { profile: None, fallback: ProfileFallback::ClearOnNone, args })
    } else {
        None
    }
}

/// The launch after the picker: the picked profile with the arguments, or
/// nothing when the user cancelled.
pub fn launch_picked(picked: Option<String>, args: Vec<String>) -> (r: Option<NvimLaunch>)
    ensures
        match picked {
            Some(p) => r matches Some(l) && l@ == (LaunchView {
                profile: Some(p@),
                fallback: ProfileFallback::Preserve,
                args: strings_view(args@),
            }),
            None => r is None,
        },
{
    match picked {
        Some(p) => Some(NvimLaunch { profile: Some(p), fallback: ProfileFallback::Preserve, args }),
        None => None,
    }
}

/// The arguments that a plan hands to Neovim or to the picker.
pub open spec fn plan_args(plan: PlanView) -> Option<Seq<Seq<char>>> {
    match plan {
        PlanView::Exec(l) => Some(l.args),
        PlanView::WarnThenExec(_, l) => Some(l.args),
        PlanView::Pick(a) => Some(a),
        PlanView::Fail(_) => None,
    }
}

/// Arguments pass through untouched: whatever the plan, the arguments it
/// hands on are exactly the command line's, less the first argument when,
/// and only when, that argument was taken as the profile's name.
pub proof fn law_arguments_pass_through(
    first: Option<Seq<char>>,
    rest: Seq<Seq<char>>,
    default_profile: Option<Seq<char>>,
    first_is_dir: bool,
    profile_present: bool,
    strict_mode: bool,
    use_fzf: bool,
    fallback_to_plain_nvim: bool,
)
    ensures
        ({
            let res = resolve_spec(first, rest, default_profile, first_is_dir);
            let plan = plan_spec(res, profile_present, strict_mode, use_fzf, fallback_to_plain_nvim);
            &&& res.is_explicit ==> first == res.profile && first is Some
            &&& plan_args(plan) matches Some(a) ==> a == if res.is_explicit {
                rest
            } else {
                match first {
                    Some(f) => seq![f] + rest,
                    None => rest,
                }
            }
        }),
{
}

/// Strict mode never falls back: a profile that is missing ends in the
/// strict-mode error, whether the user named it or it is the default.
pub proof fn law_strict_mode_never_falls_back(
    res: ResolutionView,
    use_fzf: bool,
    fallback_to_plain_nvim: bool,
)
    requires
        res.profile is Some,
    ensures
        plan_spec(res, false, true, use_fzf, fallback_to_plain_nvim) == PlanView::Fail(
            LaunchErrorView::StrictModeNotFound(res.profile->0),
        ),
{
}

/// A profile that the user named and that is present is launched as that
/// profile, with `NVIM_APPNAME` set to `nvim/<name>`.
pub proof fn law_named_profile_launches_with_its_appname(
    name: Seq<char>,
    rest: Seq<Seq<char>>,
    default_profile: Option<Seq<char>>,
    strict_mode: bool,
    use_fzf: bool,
    fallback_to_plain_nvim: bool,
)
    requires
        valid_profile_name(name),
    ensures
        ({
            let res = resolve_spec(Some(name), rest, default_profile, true);
            let plan = plan_spec(res, true, strict_mode, use_fzf, fallback_to_plain_nvim);
            &&& plan matches PlanView::Exec(l) && l.profile == Some(name) && l.args == rest
            &&& appname_spec(Some(name), ProfileFallback::Preserve) == Ok::<
                AppNameView,
                LaunchErrorView,
            >(AppNameView::Assign("nvim/"@ + name))
        }),
{
}

/// A profile whose directory is present is launched, whether it was named
/// on the command line or is the configured default: the plan runs Neovim
/// with that profile, keeping the arguments, whatever the picker, strict
/// and fallback settings say. The picker and the fallbacks are only for a
/// profile that is missing.
pub proof fn law_present_profile_is_launched(
    res: ResolutionView,
    strict_mode: bool,
    use_fzf: bool,
    fallback_to_plain_nvim: bool,
)
    requires
        res.profile is Some,
    ensures
        plan_spec(res, true, strict_mode, use_fzf, fallback_to_plain_nvim) == PlanView::Exec(
            LaunchView { profile: res.profile, fallback: ProfileFallback::Preserve, args: res.args },
        ),
        !(plan_spec(res, true, strict_mode, use_fzf, fallback_to_plain_nvim) is Pick),
{
}

/// A bare `nvimx`, or one whose first argument is not an installed profile,
/// launches the configured default profile when its directory is present,
/// with every argument passed on to Neovim.
pub proof fn law_default_profile_is_launched(
    first: Option<Seq<char>>,
    first_is_dir: bool,
    rest: Seq<Seq<char>>,
    default_name: Seq<char>,
    strict_mode: bool,
    use_fzf: bool,
    fallback_to_plain_nvim: bool,
)
    requires
        first matches Some(a) ==> !(valid_profile_name(a) && first_is_dir),
    ensures
        ({
            let res = resolve_spec(first, rest, Some(default_name), first_is_dir);
            let args = match first {
                Some(a) => seq![a] + rest,
                None => rest,
            };
            plan_spec(res, true, strict_mode, use_fzf, fallback_to_plain_nvim) == PlanView::Exec(
                LaunchView { profile: Some(default_name), fallback: ProfileFallback::Preserve, args },
            )
        }),
{
}

/// A valid profile name is a single path component: it holds no separator
/// and is neither `.` nor `..`.
pub proof fn law_valid_name_is_single_component(name: Seq<char>)
    requires
        valid_profile_name(name),
    ensures
        !has_char(name, '/'),
        name != seq!['.'],
        name != seq!['.', '.'],
        !(name.len() > 0 && name[0] == '.'),
{
    if has_char(name, '/') {
        let i = choose|i: int| 0 <= i < name.len() && name[i] == '/';
        assert(is_name_char(name[i]));
    }
    if name == seq!['.'] {
        assert(is_name_char(name[0]));
    }
    if name == seq!['.', '.'] {
        assert(is_name_char(name[0]));
    }
    if name.len() > 0 {
        assert(is_name_char(name[0]));
    }
}

/// The names are in ascending order.
pub open spec fn names_sorted(names: Seq<Seq<char>>) -> bool {
    forall|i: int, j: int| 0 <= i < j < names.len() ==> lex_le(#[trigger] names[i], #[trigger] names[j])
}

proof fn lemma_insert_sorted(s: Seq<Seq<char>>, p: int, x: Seq<char>)
    requires
        names_sorted(s),
        0 <= p <= s.len(),
        forall|k: int| 0 <= k < p ==> lex_le(#[trigger] s[k], x),
        p < s.len() ==> !lex_le(s[p], x),
    ensures
        names_sorted(s.insert(p, x)),
{
    let t = s.insert(p, x);
    if p < s.len() {
        lemma_lex_total(s[p], x);
    }
    assert forall|i: int, j: int| 0 <= i < j < t.len() implies lex_le(#[trigger] t[i], #[trigger] t[j]) by {
        if j < p {
        } else if j == p {
            assert(t[i] == s[i]);
        } else if i < p {
            assert(t[j] == s[j - 1]);
            assert(lex_le(s[i], s[j - 1]));
        } else if i == p {
            assert(t[j] == s[j - 1]);
            if j - 1 > p {
                assert(lex_le(s[p], s[j - 1]));
                lemma_lex_trans(x, s[p], s[j - 1]);
            }
        } else {
            assert(t[i] == s[i - 1]);
            assert(t[j] == s[j - 1]);
        }
    }
}

/// The names in ascending order, each as often as given.
pub fn sort_names(names: Vec<String>) -> (r: Vec<String>)
    ensures
        strings_view(r@).to_multiset() == strings_view(names@).to_multiset(),
        names_sorted(strings_view(r@)),
{
    broadcast use vstd::seq_lib::group_to_multiset_ensures;

    let mut out: Vec<String> = Vec::new();
    let mut i: usize = 0;
    while i < names.len()
        invariant
            i <= names.len(),
            strings_view(out@).to_multiset() == strings_view(names@.take(i as int)).to_multiset(),
            names_sorted(strings_view(out@)),
        decreases names.len() - i,
    {
        let x = names[i].clone();
        let mut p: usize = 0;
        while p < out.len() && lex_le_str(out[p].as_str(), x.as_str())
            invariant
                p <= out.len(),
                forall|k: int| 0 <= k < p ==> lex_le(#[trigger] strings_view(out@)[k], x@),
            decreases out.len() - p,
        {
            p = p + 1;
        }
        let ghost before = strings_view(out@);
        proof {
            lemma_insert_sorted(before, p as int, x@);
            assert(strings_view(names@.take(i + 1)) =~= strings_view(names@.take(i as int)).push(
                names@[i as int]@,
            ));
        }
        let ghost xv = x@;
        proof {
            assert(xv == names@[i as int]@);
        }
        out.insert(p, x);
        proof {
            assert(strings_view(out@) =~= before.insert(p as int, xv));
            vstd::seq_lib::to_multiset_insert(before, p as int, xv);
            vstd::seq_lib::to_multiset_build(strings_view(names@.take(i as int)), xv);
        }
        i = i + 1;
    }
    proof {
        assert(names@.take(names@.len() as int) =~= names@);
    }
    out
}

/// The profiles that `list` shows: the listed entries (directories not
/// hidden by a leading `.`), their names in ascending order.
pub fn listed_profiles(entries: &Vec<DirEntryInfo>) -> (r: Vec<String>)
    ensures
        strings_view(r@).to_multiset() == selected_names(entries@, EntryFilter::Listing).to_multiset(),
        names_sorted(strings_view(r@)),
{
    let names = select_entries(entries, EntryFilter::Listing);
    sort_names(names)
}

/// One line of `list`: a profile's name, and whether it is the configured
/// default profile, the one a bare `nvimx` launches.
pub struct ListedProfile {
    pub name: String,
    pub is_default: bool,
}

/// The lines of `list`: the profiles as `listed_profiles` gives them, in
/// that order, each marked where it is the configured `default_profile`.
pub fn list_lines(entries: &Vec<DirEntryInfo>, default_profile: &Option<String>) -> (r: Vec<ListedProfile>)
    ensures
        r@.len() == selected_names(entries@, EntryFilter::Listing).len(),
        strings_view(r@.map_values(|l: ListedProfile| l.name)).to_multiset() == selected_names(
            entries@,
            EntryFilter::Listing,
        ).to_multiset(),
        names_sorted(strings_view(r@.map_values(|l: ListedProfile| l.name))),
        forall|i: int|
            0 <= i < r@.len() ==> #[trigger] r@[i].is_default == (opt_view(*default_profile) == Some(
                r@[i].name@,
            )),
{
    broadcast use vstd::seq_lib::group_to_multiset_ensures;

    let names = listed_profiles(entries);
    let mut out: Vec<ListedProfile> = Vec::new();
    let mut i: usize = 0;
    while i < names.len()
        invariant
            i <= names.len(),
            out@.len() == i,
            forall|k: int| 0 <= k < i ==> #[trigger] out@[k].name@ == names@[k]@,
            forall|k: int|
                0 <= k < i ==> #[trigger] out@[k].is_default == (opt_view(*default_profile) == Some(
                    out@[k].name@,
                )),
        decreases names.len() - i,
    {
        let is_default = match default_profile {
            Some(d) => str_eq(d.as_str(), names[i].as_str()),
            None => false,
        };
        out.push(ListedProfile { name: names[i].clone(), is_default });
        i = i + 1;
    }
    proof {
        assert(strings_view(out@.map_values(|l: ListedProfile| l.name)) =~= strings_view(names@));
        assert(strings_view(names@).to_multiset().len() == strings_view(names@).len());
        assert(selected_names(entries@, EntryFilter::Listing).to_multiset().len() == selected_names(
            entries@,
            EntryFilter::Listing,
        ).len());
    }
    out
}

/// How many profiles `doctor` and `setup` count: the listed entries.
pub fn count_profiles(entries: &Vec<DirEntryInfo>) -> (r: usize)
    ensures
        r == selected_names(entries@, EntryFilter::Listing).len(),
{
    let names = select_entries(entries, EntryFilter::Listing);
    names.len()
}

proof fn lemma_last_sep_prefix(p1: Seq<char>, p2: Seq<char>, b: int, m: int)
    requires
        0 <= b,
        m <= p1.len(),
        m <= p2.len(),
        forall|k: int| 0 <= k < m ==> p1[k] == p2[k],
    ensures
        last_sep_in(p1, b, m) == last_sep_in(p2, b, m),
    decreases m - b,
{
    if m > b {
        lemma_last_sep_prefix(p1, p2, b, m - 1);
    }
}

proof fn lemma_trim_end_prefix(p1: Seq<char>, p2: Seq<char>, b: int, m: int)
    requires
        0 <= b,
        0 <= m <= p1.len(),
        m <= p2.len(),
        forall|k: int| 0 <= k < m ==> p1[k] == p2[k],
    ensures
        trim_end(p1, b, m) == trim_end(p2, b, m),
    decreases m,
{
    if m > b {
        lemma_last_sep_prefix(p1, p2, b, m);
        lemma_last_sep_range(p1, b, m);
        let st = seg_start(p1, b, m);
        assert(p1.subrange(st, m) =~= p2.subrange(st, m));
        if !is_real_segment(p1.subrange(st, m)) {
            lemma_trim_end_prefix(p1, p2, b, m - seg_size(p1, b, m));
        }
    }
}

proof fn lemma_last_sep_skips(p: Seq<char>, b: int, m2: int, m1: int)
    requires
        0 <= b <= m2 <= m1 <= p.len(),
        forall|k: int| m2 <= k < m1 ==> p[k] != '/',
    ensures
        last_sep_in(p, b, m1) == last_sep_in(p, b, m2),
    decreases m1 - m2,
{
    if m1 > m2 {
        lemma_last_sep_skips(p, b, m2, m1 - 1);
    }
}

/// A profile's directory lies directly inside the directory it is joined
/// to: for a valid profile name `name` and any directory `dir`, the parent
/// of `dir` joined with `name` is `dir` itself (in the normal form that
/// `Path::parent` gives, without trailing separators or `.` segments).
/// Hence a profile can never name a place outside the profiles directory.
pub proof fn law_profile_dir_is_a_child(dir: Seq<char>, name: Seq<char>)
    requires
        valid_profile_name(name),
    ensures
        path_parent(path_join(dir, name)) == Some(
            dir.subrange(0, trim_end(dir, body_start(dir), dir.len() as int)),
        ),
{
    law_valid_name_is_single_component(name);
    law_component_is_a_child(dir, name);
}

/// A single path component joined to a directory lies directly inside it:
/// for a non-empty `name` without separators that is neither `.` nor `..`,
/// and any directory `dir`, the parent of `dir` joined with `name` is `dir`
/// itself (in the normal form that `Path::parent` gives).
pub proof fn law_component_is_a_child(dir: Seq<char>, name: Seq<char>)
    requires
        single_component(name),
    ensures
        path_parent(path_join(dir, name)) == Some(
            dir.subrange(0, trim_end(dir, body_start(dir), dir.len() as int)),
        ),
{
    let j = path_join(dir, name);
    assert(!is_absolute(name));
    let nl = name.len() as int;
    assert forall|k: int| j.len() - nl <= k < j.len() implies j[k] != '/' by {
        assert(j[k] == name[k - (j.len() - nl)]);
        if name[k - (j.len() - nl)] == '/' {
            assert(has_char(name, '/'));
        }
    }
    if dir.len() == 0 {
        assert(j =~= name);
        if name[0] == '.' {
            if name.len() == 1 {
                assert(name =~= seq!['.']);
            } else if name[1] == '/' {
                assert(has_char(name, '/'));
            }
        }
        assert(body_start(j) == 0);
        lemma_last_sep_skips(j, 0, 0, j.len() as int);
        assert(last_sep_in(j, 0, 0) == -1);
        assert(j.subrange(seg_start(j, 0, j.len() as int), j.len() as int) =~= name);
        assert(dir.subrange(0, 0) =~= j.subrange(0, 0));
    } else {
        let b = body_start(dir);
        assert(body_start(j) == b);
        let m = j.len() - nl;
        assert(j[m - 1] == '/');
        lemma_last_sep_skips(j, b, m, j.len() as int);
        lemma_last_sep_range(j, b, j.len() as int);
        assert(j.subrange(seg_start(j, b, j.len() as int), j.len() as int) =~= name);
        let k = j.len() - seg_size(j, b, j.len() as int);
        assert(forall|i: int| 0 <= i < k ==> j[i] == dir[i]);
        lemma_trim_end_prefix(j, dir, b, k);
        if m - 1 >= b {
            assert(k == m - 1);
            if dir.last() == '/' {
                assert(m == dir.len());
                assert(last_sep_in(dir, b, dir.len() as int) == dir.len() - 1);
                assert(dir.subrange(dir.len() as int, dir.len() as int) =~= Seq::<char>::empty());
            } else {
                assert(m == dir.len() + 1);
            }
        } else {
            assert(dir =~= seq!['/']);
        }
        let t = trim_end(dir, b, dir.len() as int);
        lemma_trim_bound(dir, b, dir.len() as int);
        assert(j.subrange(0, t) =~= dir.subrange(0, t));
    }
}

proof fn lemma_trim_bound(p: Seq<char>, b: int, m: int)
    requires
        0 <= b,
        0 <= m,
    ensures
        trim_end(p, b, m) <= m,
        m >= b ==> trim_end(p, b, m) >= b,
    decreases m,
{
    if m > b {
        lemma_last_sep_range(p, b, m);
        if !is_real_segment(p.subrange(seg_start(p, b, m), m)) {
            lemma_trim_bound(p, b, m - seg_size(p, b, m));
        }
    }
}

/// The nvimx configuration directory can always be derived: every Neovim
/// root built from the environment ends in the component `nvim`, so it has
/// a parent, namely its base directory in normal form.
pub proof fn law_nvim_root_has_parent(var: Option<Seq<char>>, home: Option<Seq<char>>, fallback: Seq<char>)
    ensures
        ({
            let base = xdg_base(var, home, fallback);
            path_parent(xdg_nvim_root(var, home, fallback)) == Some(
                base.subrange(0, trim_end(base, body_start(base), base.len() as int)),
            )
        }),
{
    reveal_strlit("nvim");
    assert(valid_profile_name("nvim"@));
    law_profile_dir_is_a_child(xdg_base(var, home, fallback), "nvim"@);
}

} // verus!
