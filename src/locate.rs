//! Finding the editor's executable: an explicit override first, then the
//! platform's usual install locations, then its command-line lookup (`which`
//! or `where`), in order;
//! the first candidate that exists on disk wins. The driver checks existence
//! and runs the lookup command when asked, and hands back what it saw.
use vstd::prelude::*;
use vstd::string::*;

use crate::script_values::opt_text;
use crate::text::{trim, trimmed};

verus! {

/// The environment variable that names the executable explicitly.
pub const PATH_OVERRIDE_VAR: &'static str = "ASEPRITE_PATH";

/// The program name given to the platform's lookup command.
pub const PROGRAM_NAME: &'static str = "aseprite";

pub const WINDOWS_LOOKUP_COMMAND: &'static str = "where";

pub const UNIX_LOOKUP_COMMAND: &'static str = "which";

pub const WINDOWS_PROGRAM_FILES: &'static str = "C:\\Program Files\\Aseprite\\Aseprite.exe";

pub const WINDOWS_STEAM_X86: &'static str =
    "C:\\Program Files (x86)\\Steam\\steamapps\\common\\Aseprite\\Aseprite.exe";

pub const WINDOWS_STEAM: &'static str =
    "C:\\Program Files\\Steam\\steamapps\\common\\Aseprite\\Aseprite.exe";

pub const MACOS_APP: &'static str = "/Applications/Aseprite.app/Contents/MacOS/aseprite";

/// Appended to the home directory on Linux.
pub const LINUX_STEAM_SUFFIX: &'static str =
    "/.steam/debian-installation/steamapps/common/Aseprite/aseprite";

pub const NOT_FOUND_MESSAGE: &'static str =
    "Could not find Aseprite executable. Please set the ASEPRITE_PATH environment variable to the full path of the Aseprite executable.";

#[derive(Clone, Copy, Debug, PartialEq, Eq, Structural)]
pub enum Platform {
    Windows,
    MacOs,
    Linux,
    Other,
}

/// One place to look.
#[derive(Debug)]
pub enum Candidate {
    /// A fixed path, to be checked for existence.
    Path(String),
    /// Run the platform's lookup command; a path it prints is then checked.
    Lookup,
}

pub ghost enum CandidateView {
    Path(Seq<char>),
    Lookup,
}

pub open spec fn candidate_view(c: Candidate) -> CandidateView {
    match c {
        Candidate::Path(p) => CandidateView::Path(p@),
        Candidate::Lookup => CandidateView::Lookup,
    }
}

/// Where to look on each platform, in order, after the override.
pub open spec fn platform_plan(platform: Platform, home: Seq<char>) -> Seq<CandidateView> {
    match platform {
        Platform::Windows => seq![
            CandidateView::Path(WINDOWS_PROGRAM_FILES@),
            CandidateView::Path(WINDOWS_STEAM_X86@),
            CandidateView::Path(WINDOWS_STEAM@),
            CandidateView::Lookup,
        ],
        Platform::MacOs => seq![CandidateView::Path(MACOS_APP@), CandidateView::Lookup],
        Platform::Linux => seq![
            CandidateView::Path(home + LINUX_STEAM_SUFFIX@),
            CandidateView::Lookup,
        ],
        Platform::Other => seq![CandidateView::Lookup],
    }
}

/// The whole search: the override where one is set, then the platform's.
pub open spec fn search_plan(platform: Platform, override_path: Option<Seq<char>>, home: Seq<char>) -> Seq<CandidateView> {
    match override_path {
        Some(p) => seq![CandidateView::Path(p)] + platform_plan(platform, home),
        None => platform_plan(platform, home),
    }
}

/// The text up to the first line feed.
pub open spec fn first_line(s: Seq<char>) -> Seq<char>
    decreases s.len(),
{
    if s.len() == 0 || s[0] == '\n' {
        Seq::empty()
    } else {
        seq![s[0]] + first_line(s.drop_first())
    }
}

/// The path that a successful lookup command printed: its first line,
/// trimmed, or none where it printed nothing. A carriage return before the
/// line feed is white space, so trimming removes it.
pub open spec fn lookup_result(out: Seq<char>) -> Option<Seq<char>> {
    if out.len() == 0 {
        None
    } else {
        Some(trimmed(first_line(out)))
    }
}

#[derive(Debug)]
pub enum LocateStage {
    /// About to try candidate `pos`.
    Probing { pos: usize },
    /// Candidate `pos` was a lookup that printed `path`; is it there?
    Checking { pos: usize, path: String },
    Found(String),
    NotFound,
}

pub ghost enum LocateStageView {
    Probing { pos: int },
    Checking { pos: int, path: Seq<char> },
    Found(Seq<char>),
    NotFound,
}

/// What the driver observed.
#[derive(Debug)]
pub enum LocateEvent {
    /// Whether the path asked about exists.
    Exists(bool),
    /// The lookup command's standard output where it ran and succeeded.
    LookupDone(Option<String>),
}

pub ghost enum LocateEventView {
    Exists(bool),
    LookupDone(Option<Seq<char>>),
}

pub open spec fn locate_event_view(e: LocateEvent) -> LocateEventView {
    match e {
        LocateEvent::Exists(b) => LocateEventView::Exists(b),
        LocateEvent::LookupDone(Some(s)) => LocateEventView::LookupDone(Some(s@)),
        LocateEvent::LookupDone(None) => LocateEventView::LookupDone(None),
    }
}

#[derive(Debug)]
pub enum LocateAction {
    CheckExists(String),
    /// Run the lookup command (`where` or `which`) for the program name.
    RunLookup,
    Finish,
}

pub ghost struct LocatorView {
    pub platform: Platform,
    pub plan: Seq<CandidateView>,
    pub stage: LocateStageView,
}

/// Continue with candidate `k`, or give up where there is none.
pub open spec fn advance(plan: Seq<CandidateView>, k: int) -> LocateStageView {
    if k < plan.len() {
        LocateStageView::Probing { pos: k }
    } else {
        LocateStageView::NotFound
    }
}

impl LocatorView {
    pub open spec fn next(self, ev: LocateEventView) -> LocatorView {
        let stage = match self.stage {
            LocateStageView::Probing { pos } => match self.plan[pos] {
                CandidateView::Path(p) => match ev {
                    LocateEventView::Exists(true) => LocateStageView::Found(p),
                    LocateEventView::Exists(false) => advance(self.plan, pos + 1),
                    _ => self.stage,
                },
                CandidateView::Lookup => match ev {
                    LocateEventView::LookupDone(Some(out)) => match lookup_result(out) {
                        Some(p) => LocateStageView::Checking { pos, path: p },
                        None => advance(self.plan, pos + 1),
                    },
                    LocateEventView::LookupDone(None) => advance(self.plan, pos + 1),
                    _ => self.stage,
                },
            },
            LocateStageView::Checking { pos, path } => match ev {
                LocateEventView::Exists(true) => LocateStageView::Found(path),
                LocateEventView::Exists(false) => advance(self.plan, pos + 1),
                _ => self.stage,
            },
            _ => self.stage,
        };
        LocatorView { stage, ..self }
    }

    pub open spec fn asks(self, a: LocateAction) -> bool {
        match self.stage {
            LocateStageView::Probing { pos } => match self.plan[pos] {
                CandidateView::Path(p) => a matches LocateAction::CheckExists(q) && q@ == p,
                CandidateView::Lookup => a is RunLookup,
            },
            LocateStageView::Checking { path, .. } => a matches LocateAction::CheckExists(q)
                && q@ == path,
            _ => a is Finish,
        }
    }
}

/// The search for the executable, one candidate at a time.
#[derive(Debug)]
pub struct Locator {
    platform: Platform,
    plan: Vec<Candidate>,
    stage: LocateStage,
}

impl View for Locator {
    type V = LocatorView;

    closed spec fn view(&self) -> LocatorView {
        LocatorView {
            platform: self.platform,
            plan: self.plan@.map_values(|c: Candidate| candidate_view(c)),
            stage: match self.stage {
                LocateStage::Probing { pos } => LocateStageView::Probing { pos: pos as int },
                LocateStage::Checking { pos, path } => LocateStageView::Checking {
                    pos: pos as int,
                    path: path@,
                },
                LocateStage::Found(p) => LocateStageView::Found(p@),
                LocateStage::NotFound => LocateStageView::NotFound,
            },
        }
    }
}

fn first_line_exec(s: &str) -> (r: &str)
    ensures
        r@ == first_line(s@),
{
    let n = s.unicode_len();
    let mut k: usize = 0;
    while k < n && s.get_char(k) != '\n'
        invariant
            k <= n,
            n == s@.len(),
            forall|j: int| 0 <= j < k ==> s@[j] != '\n',
        decreases n - k,
    {
        k = k + 1;
    }
    proof {
        lemma_first_line_prefix(s@, k as int);
    }
    s.substring_char(0, k)
}

proof fn lemma_first_line_prefix(s: Seq<char>, k: int)
    requires
        0 <= k <= s.len(),
        forall|j: int| 0 <= j < k ==> s[j] != '\n',
        k == s.len() || s[k] == '\n',
    ensures
        first_line(s) == s.subrange(0, k),
    decreases k,
{
    if k == 0 {
        assert(s.subrange(0, 0) =~= Seq::<char>::empty());
    } else {
        let t = s.drop_first();
        assert forall|j: int| 0 <= j < k - 1 implies t[j] != '\n' by {
            assert(t[j] == s[j + 1]);
        }
        lemma_first_line_prefix(t, k - 1);
        assert(seq![s[0]] + t.subrange(0, k - 1) =~= s.subrange(0, k));
    }
}

/// The path that a successful run of the lookup command printed, if any.
pub fn lookup_path(out: &str) -> (r: Option<String>)
    ensures
        r matches Some(p) ==> lookup_result(out@) == Some(p@),
        r is None ==> lookup_result(out@) is None,
{
    if out.is_empty() {
        None
    } else {
        Some(trim(first_line_exec(out)).to_owned())
    }
}

impl Locator {
    #[verifier::type_invariant]
    spec fn well_formed(&self) -> bool {
        match self.stage {
            LocateStage::Probing { pos } => pos < self.plan@.len(),
            LocateStage::Checking { pos, .. } => pos < self.plan@.len(),
            _ => true,
        }
    }

    /// Starts the search: `override_path` is the value of the override
    /// variable where it is set, `home` the home directory (empty where
    /// unknown).
    pub fn new(platform: Platform, override_path: Option<&str>, home: &str) -> (r: Locator)
        ensures
            r@.platform == platform,
            r@.plan == search_plan(platform, opt_text(override_path), home@),
            r@.stage == advance(r@.plan, 0),
    {
        let mut plan: Vec<Candidate> = Vec::new();
        match override_path {
            Some(p) => plan.push(Candidate::Path(p.to_owned())),
            None => {},
        }
        match platform {
            Platform::Windows => {
                plan.push(Candidate::Path(String::from_str(WINDOWS_PROGRAM_FILES)));
                plan.push(Candidate::Path(String::from_str(WINDOWS_STEAM_X86)));
                plan.push(Candidate::Path(String::from_str(WINDOWS_STEAM)));
                plan.push(Candidate::Lookup);
            },
            Platform::MacOs => {
                plan.push(Candidate::Path(String::from_str(MACOS_APP)));
                plan.push(Candidate::Lookup);
            },
            Platform::Linux => {
                let mut p = home.to_owned();
                p.append(LINUX_STEAM_SUFFIX);
                plan.push(Candidate::Path(p));
                plan.push(Candidate::Lookup);
            },
            Platform::Other => {
                plan.push(Candidate::Lookup);
            },
        }
        let stage = if plan.len() > 0 {
            LocateStage::Probing { pos: 0 }
        } else {
            LocateStage::NotFound
        };
        let r = Locator { platform, plan, stage };
        assert(r@.plan =~= search_plan(platform, opt_text(override_path), home@));
        r
    }

    /// What the driver is to do next.
    pub fn next_action(&self) -> (r: LocateAction)
        ensures
            self@.asks(r),
    {
        proof {
            use_type_invariant(self);
        }
        match &self.stage {
            LocateStage::Probing { pos } => match &self.plan[*pos] {
                Candidate::Path(p) => LocateAction::CheckExists(p.clone()),
                Candidate::Lookup => LocateAction::RunLookup,
            },
            LocateStage::Checking { path, .. } => LocateAction::CheckExists(path.clone()),
            _ => LocateAction::Finish,
        }
    }

    fn advance_exec(&self, k: usize) -> (r: LocateStage)
        requires
            k <= self.plan@.len(),
        ensures
            (match r {
                LocateStage::Probing { pos } => LocateStageView::Probing { pos: pos as int },
                LocateStage::Checking { pos, path } => LocateStageView::Checking {
                    pos: pos as int,
                    path: path@,
                },
                LocateStage::Found(p) => LocateStageView::Found(p@),
                LocateStage::NotFound => LocateStageView::NotFound,
            }) == advance(self@.plan, k as int),
            r matches LocateStage::Probing { pos } ==> pos < self.plan@.len(),
            r is Probing || r is NotFound,
    {
        if k < self.plan.len() {
            LocateStage::Probing { pos: k }
        } else {
            LocateStage::NotFound
        }
    }

    /// The search after the driver observed `ev`.
    pub fn step(self, ev: LocateEvent) -> (r: Locator)
        ensures
            r@ == self@.next(locate_event_view(ev)),
    {
        proof {
            use_type_invariant(&self);
        }
        let n = self.plan.len();
        assert(n == self.plan@.len());
        let stage = match &self.stage {
            LocateStage::Probing { pos } => {
                let pos = *pos;
                match &self.plan[pos] {
                    Candidate::Path(p) => match ev {
                        LocateEvent::Exists(true) => LocateStage::Found(p.clone()),
                        LocateEvent::Exists(false) => self.advance_exec(pos + 1),
                        _ => LocateStage::Probing { pos },
                    },
                    Candidate::Lookup => match ev {
                        LocateEvent::LookupDone(Some(out)) => match lookup_path(out.as_str()) {
                            Some(p) => LocateStage::Checking { pos, path: p },
                            None => self.advance_exec(pos + 1),
                        },
                        LocateEvent::LookupDone(None) => self.advance_exec(pos + 1),
                        _ => LocateStage::Probing { pos },
                    },
                }
            },
            LocateStage::Checking { pos, path } => match ev {
                LocateEvent::Exists(true) => LocateStage::Found(path.clone()),
                LocateEvent::Exists(false) => self.advance_exec(*pos + 1),
                _ => LocateStage::Checking { pos: *pos, path: path.clone() },
            },
            LocateStage::Found(p) => LocateStage::Found(p.clone()),
            LocateStage::NotFound => LocateStage::NotFound,
        };
        Locator { platform: self.platform, plan: self.plan, stage }
    }

    /// The executable found, or the error to report, once the search ended.
    pub fn into_result(self) -> (r: Option<Result<String, String>>)
        ensures
            self@.stage matches LocateStageView::Found(p) ==> (r matches Some(Ok(q)) && q@ == p),
            self@.stage is NotFound ==> (r matches Some(Err(m)) && m@ == NOT_FOUND_MESSAGE@),
            !(self@.stage is Found || self@.stage is NotFound) ==> r is None,
    {
        match self.stage {
            LocateStage::Found(p) => Some(Ok(p)),
            LocateStage::NotFound => Some(Err(String::from_str(NOT_FOUND_MESSAGE))),
            _ => None,
        }
    }
}

/// Where the override variable names a path that does not exist, the search
/// does not fail there: it goes on with exactly the platform's own search,
/// as if no override had been set.
pub proof fn lemma_missing_override_falls_through(platform: Platform, o: Seq<char>, home: Seq<char>)
    ensures
        ({
            let plan = search_plan(platform, Some(o), home);
            let start = LocatorView { platform, plan, stage: advance(plan, 0) };
            let after = start.next(LocateEventView::Exists(false));
            &&& start.stage == (LocateStageView::Probing { pos: 0 })
            &&& plan[0] == CandidateView::Path(o)
            &&& plan.drop_first() == search_plan(platform, None, home)
            &&& after.stage == advance(plan, 1)
            &&& after.stage == (LocateStageView::Probing { pos: 1 })
        }),
{
    let plan = search_plan(platform, Some(o), home);
    assert(plan.drop_first() =~= search_plan(platform, None, home));
}

/// The first candidate from `i` on that exists, by the answers `on_disk`
/// gives, where the lookup command printed `lookup` (or failed, `None`).
pub open spec fn first_found(
    platform: Platform,
    plan: Seq<CandidateView>,
    i: int,
    on_disk: spec_fn(Seq<char>) -> bool,
    lookup: Option<Seq<char>>,
) -> Option<Seq<char>>
    decreases plan.len() - i,
{
    if i < 0 || i >= plan.len() {
        None
    } else {
        let rest = first_found(platform, plan, i + 1, on_disk, lookup);
        match plan[i] {
            CandidateView::Path(p) => if on_disk(p) {
                Some(p)
            } else {
                rest
            },
            CandidateView::Lookup => match lookup {
                Some(out) => match lookup_result(out) {
                    Some(q) => if on_disk(q) {
                        Some(q)
                    } else {
                        rest
                    },
                    None => rest,
                },
                None => rest,
            },
        }
    }
}

/// What a driver answers to the state's request, given which paths exist and
/// what the lookup command printed.
pub open spec fn answer(
    v: LocatorView,
    on_disk: spec_fn(Seq<char>) -> bool,
    lookup: Option<Seq<char>>,
) -> LocateEventView {
    match v.stage {
        LocateStageView::Probing { pos } => match v.plan[pos] {
            CandidateView::Path(p) => LocateEventView::Exists(on_disk(p)),
            CandidateView::Lookup => LocateEventView::LookupDone(lookup),
        },
        LocateStageView::Checking { path, .. } => LocateEventView::Exists(on_disk(path)),
        _ => LocateEventView::Exists(false),
    }
}

/// The state after `n` steps of such a driver.
pub open spec fn drive(
    v: LocatorView,
    on_disk: spec_fn(Seq<char>) -> bool,
    lookup: Option<Seq<char>>,
    n: nat,
) -> LocatorView
    decreases n,
{
    if n == 0 {
        v
    } else {
        drive(v.next(answer(v, on_disk, lookup)), on_disk, lookup, (n - 1) as nat)
    }
}

pub open spec fn outcome_stage(r: Option<Seq<char>>) -> LocateStageView {
    match r {
        Some(p) => LocateStageView::Found(p),
        None => LocateStageView::NotFound,
    }
}

proof fn lemma_drive_finished(
    v: LocatorView,
    on_disk: spec_fn(Seq<char>) -> bool,
    lookup: Option<Seq<char>>,
    n: nat,
)
    requires
        v.stage is Found || v.stage is NotFound,
    ensures
        drive(v, on_disk, lookup, n) == v,
    decreases n,
{
    if n > 0 {
        assert(v.next(answer(v, on_disk, lookup)) == v);
        lemma_drive_finished(v, on_disk, lookup, (n - 1) as nat);
    }
}

proof fn lemma_drive_from(
    v: LocatorView,
    i: int,
    on_disk: spec_fn(Seq<char>) -> bool,
    lookup: Option<Seq<char>>,
    n: nat,
)
    requires
        0 <= i <= v.plan.len(),
        v.stage == advance(v.plan, i),
        n >= 2 * (v.plan.len() - i),
    ensures
        drive(v, on_disk, lookup, n).stage == outcome_stage(
            first_found(v.platform, v.plan, i, on_disk, lookup),
        ),
    decreases v.plan.len() - i,
{
    if i == v.plan.len() {
        lemma_drive_finished(v, on_disk, lookup, n);
    } else {
        let w = v.next(answer(v, on_disk, lookup));
        match v.plan[i] {
            CandidateView::Path(p) => {
                if on_disk(p) {
                    lemma_drive_finished(w, on_disk, lookup, (n - 1) as nat);
                } else {
                    lemma_drive_from(w, i + 1, on_disk, lookup, (n - 1) as nat);
                }
            },
            CandidateView::Lookup => {
                match lookup {
                    Some(out) => match lookup_result(out) {
                        Some(q) => {
                            let x = w.next(answer(w, on_disk, lookup));
                            assert(drive(v, on_disk, lookup, n) == drive(
                                w,
                                on_disk,
                                lookup,
                                (n - 1) as nat,
                            ));
                            assert(drive(w, on_disk, lookup, (n - 1) as nat) == drive(
                                x,
                                on_disk,
                                lookup,
                                (n - 2) as nat,
                            ));
                            if on_disk(q) {
                                lemma_drive_finished(x, on_disk, lookup, (n - 2) as nat);
                            } else {
                                lemma_drive_from(x, i + 1, on_disk, lookup, (n - 2) as nat);
                            }
                        },
                        None => {
                            lemma_drive_from(w, i + 1, on_disk, lookup, (n - 1) as nat);
                        },
                    },
                    None => {
                        lemma_drive_from(w, i + 1, on_disk, lookup, (n - 1) as nat);
                    },
                }
            },
        }
    }
}

/// First match wins: whichever paths exist and whatever the lookup command
/// prints, a driver that answers truthfully ends the search, within two
/// steps per candidate, with the first candidate in search order that
/// exists, or with nothing found where none does.
pub proof fn lemma_first_match_wins(
    platform: Platform,
    override_path: Option<Seq<char>>,
    home: Seq<char>,
    on_disk: spec_fn(Seq<char>) -> bool,
    lookup: Option<Seq<char>>,
)
    ensures
        ({
            let plan = search_plan(platform, override_path, home);
            let start = LocatorView { platform, plan, stage: advance(plan, 0) };
            drive(start, on_disk, lookup, 2 * plan.len()).stage == outcome_stage(
                first_found(platform, plan, 0, on_disk, lookup),
            )
        }),
{
    let plan = search_plan(platform, override_path, home);
    let start = LocatorView { platform, plan, stage: advance(plan, 0) };
    lemma_drive_from(start, 0, on_disk, lookup, 2 * plan.len());
}

} // verus!
