//! Checking that a configured tool is a working program, with a cache.
//!
//! A check runs the tool with the argument that makes it print its
//! version. That is slow, and the user interface asks often, so the result
//! is kept under the tool's name and path together with the file's
//! modification time: in memory, and in a store that outlives the program.
//! An entry counts only as long as the file's modification time is the one
//! that was kept.
//!
//! The verifier decides; it touches no file and runs nothing. Its caller
//! looks up the modification time and runs the tool when
//! [`ToolVerifier::verify`] asks for it, and hands the result back.

use vstd::prelude::*;
use vstd::string::StringExecFns;

use crate::table::Table;
use crate::text::blank;
use crate::text::is_blank;
use crate::text::signed_decimal;
use crate::text::signed_decimal_string;
use crate::text::str_eq;

verus! {

/// What is kept in memory of one check.
#[derive(Debug)]
pub struct ToolCacheEntry {
    pub modification_time: u64,
    pub verification_ok: bool,
    pub message: String,
}

/// The mathematical content of [`ToolCacheEntry`].
pub struct ToolCacheEntryView {
    pub modification_time: u64,
    pub verification_ok: bool,
    pub message: Seq<char>,
}

impl View for ToolCacheEntry {
    type V = ToolCacheEntryView;

    open spec fn view(&self) -> ToolCacheEntryView {
        ToolCacheEntryView {
            modification_time: self.modification_time,
            verification_ok: self.verification_ok,
            message: self.message@,
        }
    }
}

/// What is stored of the last check of one tool.
#[derive(Debug)]
pub struct PersistedVerifyCache {
    pub path: String,
    pub modification_time: u64,
    pub ok: bool,
}

/// The mathematical content of [`PersistedVerifyCache`].
pub struct PersistedView {
    pub path: Seq<char>,
    pub modification_time: u64,
    pub ok: bool,
}

impl View for PersistedVerifyCache {
    type V = PersistedView;

    open spec fn view(&self) -> PersistedView {
        PersistedView { path: self.path@, modification_time: self.modification_time, ok: self.ok }
    }
}

/// The stored results, one slot for each tool name.
pub struct VerifyStore {
    slots: Table<PersistedVerifyCache>,
}

impl View for VerifyStore {
    type V = Map<Seq<char>, PersistedView>;

    closed spec fn view(&self) -> Map<Seq<char>, PersistedView> {
        self.slots.map().map_values(|slot: PersistedVerifyCache| slot@)
    }
}

impl VerifyStore {
    /// The number of slots.
    pub closed spec fn count(self) -> nat {
        self.slots.count()
    }

    /// The name of the tool whose slot stands at `i`, slots counted in the
    /// order in which their tools were first stored.
    pub closed spec fn tool_at(self, i: int) -> Seq<char> {
        self.slots.key_at(i)
    }

    /// A store with no slot.
    pub fn new() -> (store: VerifyStore)
        ensures
            store@ == Map::<Seq<char>, PersistedView>::empty(),
            store.count() == 0,
    {
        let store = VerifyStore { slots: Table::new() };
        assert(store@ =~= Map::<Seq<char>, PersistedView>::empty());
        store
    }

    /// The slot of `tool_name`, if something is stored for it.
    pub fn get_cached_verification(&self, tool_name: &str) -> (slot: Option<&PersistedVerifyCache>)
        ensures
            match slot {
                Some(kept) => self@.contains_key(tool_name@) && self@[tool_name@] == kept@,
                None => !self@.contains_key(tool_name@),
            },
    {
        self.slots.get(tool_name)
    }

    /// Stores `entry` in the slot of `tool_name`, in place of what was
    /// there. A tool that had a slot keeps its place, as every other tool
    /// does; a new tool comes last.
    pub fn set_cached_verification(&mut self, tool_name: String, entry: PersistedVerifyCache)
        ensures
            final(self)@ == old(self)@.insert(tool_name@, entry@),
            old(self)@.contains_key(tool_name@) ==> final(self).count() == old(self).count(),
            !old(self)@.contains_key(tool_name@) ==> final(self).count() == old(self).count() + 1
                && final(self).tool_at(old(self).count() as int) == tool_name@,
            forall|i: int|
                0 <= i < old(self).count() ==> #[trigger] final(self).tool_at(i) == old(
                    self,
                ).tool_at(i),
    {
        self.slots.insert(tool_name, entry);
        assert(self@ =~= old(self)@.insert(tool_name@, entry@));
    }

    /// The number of slots. The tools at the places below it are the tools
    /// of the store, each at one place.
    pub fn len(&self) -> (n: usize)
        ensures
            n == self.count(),
            forall|i: int| 0 <= i < self.count() ==> self@.contains_key(#[trigger] self.tool_at(i)),
            forall|i: int, j: int|
                0 <= i < j < self.count() ==> #[trigger] self.tool_at(i) != #[trigger] self.tool_at(
                    j,
                ),
            forall|tool: Seq<char>| #[trigger]
                self@.contains_key(tool) ==> exists|i: int|
                    0 <= i < self.count() && #[trigger] self.tool_at(i) == tool,
    {
        let n = self.slots.len();
        proof {
            assert forall|tool: Seq<char>| #[trigger] self@.contains_key(tool) implies exists|
                i: int,
            |
                0 <= i < self.count() && #[trigger] self.tool_at(i) == tool by {
                assert(self.slots.map().contains_key(tool));
                let i = choose|i: int| 0 <= i < self.slots.count() && #[trigger] self.slots.key_at(i)
                    == tool;
                assert(self.tool_at(i) == tool);
            }
        }
        n
    }

    /// The slot at `i`, slots counted in the order in which their tools
    /// were first stored: the name of its tool, which has no other slot,
    /// and what is stored for it.
    pub fn slot(&self, i: usize) -> (named: (&String, &PersistedVerifyCache))
        requires
            i < self.count(),
        ensures
            named.0@ == self.tool_at(i as int),
            self@.contains_key(named.0@),
            self@[named.0@] == named.1@,
            forall|j: int| 0 <= j < self.count() && j != i ==> #[trigger] self.tool_at(j) != named.0@,
    {
        self.slots.entry(i)
    }
}

/// How running the tool with its version argument went.
#[derive(Debug)]
pub enum ProbeOutcome {
    /// It ran and ended with success.
    Succeeded,
    /// It ran and ended without success, with this exit code if it had
    /// one.
    Failed(Option<i32>),
    /// It could not be run; the system's message is kept.
    NotStarted(String),
}

/// What the caller hands to a step of a check.
#[derive(Debug)]
pub enum VerifyInput {
    /// Nothing yet: the check begins.
    Begin,
    /// The file's modification time, or `None` where the file cannot be
    /// looked up.
    Stat(Option<u64>),
    /// How running the tool went, and the modification time that the file
    /// had then.
    Probed(u64, ProbeOutcome),
}

/// What the verifier answers to a step.
#[derive(Debug)]
pub enum VerifyStep {
    /// The check is over, with this result.
    Done(Result<String, String>),
    /// The caller is to look up the file's modification time.
    Stat,
    /// The caller is to run the tool at the path with the one argument
    /// `arg`; `modification_time` is to be handed back with the outcome.
    Probe { arg: String, modification_time: u64 },
}

/// The mathematical content of [`VerifyStep`].
pub enum VerifyStepView {
    Done(Result<Seq<char>, Seq<char>>),
    Stat,
    Probe { arg: Seq<char>, modification_time: u64 },
}

impl View for VerifyStep {
    type V = VerifyStepView;

    open spec fn view(&self) -> VerifyStepView {
        match self {
            VerifyStep::Done(Ok(message)) => VerifyStepView::Done(Ok(message@)),
            VerifyStep::Done(Err(message)) => VerifyStepView::Done(Err(message@)),
            VerifyStep::Stat => VerifyStepView::Stat,
            VerifyStep::Probe { arg, modification_time } => VerifyStepView::Probe {
                arg: arg@,
                modification_time: *modification_time,
            },
        }
    }
}

/// The argument that makes a tool print its version, for the tools that
/// can be checked.
pub open spec fn probe_arg(tool: Seq<char>) -> Option<Seq<char>> {
    if tool == "yt-dlp"@ {
        Some("--version"@)
    } else if tool == "ffmpeg"@ {
        Some("-version"@)
    } else {
        None
    }
}

/// The key under which a check is kept in memory.
pub open spec fn cache_key(tool: Seq<char>, path: Seq<char>) -> Seq<char> {
    tool + ":"@ + path
}

/// The message for a tool whose path is not set yet.
pub open spec fn not_configured(tool: Seq<char>) -> Seq<char> {
    tool + " bundle path is empty. Tools may not be downloaded yet."@
}

/// The message for a tool that cannot be checked.
pub open spec fn unsupported(tool: Seq<char>) -> Seq<char> {
    "Program "@ + tool + " is not supported"@
}

/// The message for a path at which there is no file.
pub open spec fn not_found(tool: Seq<char>, path: Seq<char>) -> Seq<char> {
    tool + " not found at path: "@ + path
}

/// The message for a tool that works.
pub open spec fn found(tool: Seq<char>, path: Seq<char>) -> Seq<char> {
    tool + " found at: "@ + path
}

/// The message for a tool that does not work, where no more is known.
pub open spec fn not_working(tool: Seq<char>, path: Seq<char>) -> Seq<char> {
    tool + " is not working at path: "@ + path
}

/// The message for a tool that ended without success: with its exit code,
/// or with -1 where it had none.
pub open spec fn exited_badly(tool: Seq<char>, path: Seq<char>, code: Option<i32>) -> Seq<char> {
    let shown: int = match code {
        Some(c) => c as int,
        None => -1,
    };
    not_working(tool, path) + " (exit code: "@ + signed_decimal(shown) + ")"@
}

/// The message for a tool that could not be run.
pub open spec fn not_started(tool: Seq<char>, path: Seq<char>, reason: Seq<char>) -> Seq<char> {
    "Failed to run "@ + tool + " at path "@ + path + ": "@ + reason
}

/// Why a check is refused before anything is looked at: for a blank path
/// first, then for a tool that cannot be checked.
pub open spec fn rejection(tool: Seq<char>, path: Seq<char>) -> Option<Seq<char>> {
    if blank(path) {
        Some(not_configured(tool))
    } else if probe_arg(tool) is None {
        Some(unsupported(tool))
    } else {
        None
    }
}

/// The result that stands for an entry.
pub open spec fn replay(entry: ToolCacheEntryView) -> Result<Seq<char>, Seq<char>> {
    if entry.verification_ok {
        Ok(entry.message)
    } else {
        Err(entry.message)
    }
}

/// The entry that is kept of a run of the tool.
pub open spec fn probed_entry(
    tool: Seq<char>,
    path: Seq<char>,
    modification_time: u64,
    outcome: ProbeOutcome,
) -> ToolCacheEntryView {
    ToolCacheEntryView {
        modification_time,
        verification_ok: outcome is Succeeded,
        message: match outcome {
            ProbeOutcome::Succeeded => found(tool, path),
            ProbeOutcome::Failed(code) => exited_badly(tool, path, code),
            ProbeOutcome::NotStarted(reason) => not_started(tool, path, reason@),
        },
    }
}

/// The entry that is made in memory of a stored slot. The store keeps no
/// message, so the message says no more than the slot does.
pub open spec fn promoted(tool: Seq<char>, path: Seq<char>, slot: PersistedView) -> ToolCacheEntryView {
    ToolCacheEntryView {
        modification_time: slot.modification_time,
        verification_ok: slot.ok,
        message: if slot.ok {
            found(tool, path)
        } else {
            not_working(tool, path)
        },
    }
}

/// Whether memory answers for the file as it is now.
pub open spec fn memory_hit(
    memory: Map<Seq<char>, ToolCacheEntryView>,
    tool: Seq<char>,
    path: Seq<char>,
    modification_time: u64,
) -> bool {
    memory.contains_key(cache_key(tool, path)) && memory[cache_key(tool, path)].modification_time
        == modification_time
}

/// Whether the store answers for the file as it is now.
pub open spec fn store_hit(
    store: Map<Seq<char>, PersistedView>,
    tool: Seq<char>,
    path: Seq<char>,
    modification_time: u64,
) -> bool {
    store.contains_key(tool) && store[tool].path == path && store[tool].modification_time
        == modification_time
}

/// The verifier's answer to `input`.
///
/// Memory is asked first, then the store, and the tool is run only when
/// neither answers for the file as it is now.
pub open spec fn step_of(
    memory: Map<Seq<char>, ToolCacheEntryView>,
    store: Map<Seq<char>, PersistedView>,
    tool: Seq<char>,
    path: Seq<char>,
    input: VerifyInput,
) -> VerifyStepView {
    match rejection(tool, path) {
        Some(message) => VerifyStepView::Done(Err(message)),
        None => match input {
            VerifyInput::Begin => VerifyStepView::Stat,
            VerifyInput::Stat(None) => VerifyStepView::Done(Err(not_found(tool, path))),
            VerifyInput::Stat(Some(modification_time)) => if memory_hit(
                memory,
                tool,
                path,
                modification_time,
            ) {
                VerifyStepView::Done(replay(memory[cache_key(tool, path)]))
            } else if store_hit(store, tool, path, modification_time) {
                VerifyStepView::Done(replay(promoted(tool, path, store[tool])))
            } else {
                VerifyStepView::Probe { arg: probe_arg(tool)->Some_0, modification_time }
            },
            VerifyInput::Probed(modification_time, outcome) => VerifyStepView::Done(
                replay(probed_entry(tool, path, modification_time, outcome)),
            ),
        },
    }
}

/// What memory holds after `input`: the stored slot that answered, or the
/// outcome of the run, under the key of the check; in every other case
/// what it held before.
pub open spec fn memory_after(
    memory: Map<Seq<char>, ToolCacheEntryView>,
    store: Map<Seq<char>, PersistedView>,
    tool: Seq<char>,
    path: Seq<char>,
    input: VerifyInput,
) -> Map<Seq<char>, ToolCacheEntryView> {
    if rejection(tool, path) is Some {
        memory
    } else {
        match input {
            VerifyInput::Stat(Some(modification_time)) => if !memory_hit(
                memory,
                tool,
                path,
                modification_time,
            ) && store_hit(store, tool, path, modification_time) {
                memory.insert(cache_key(tool, path), promoted(tool, path, store[tool]))
            } else {
                memory
            },
            VerifyInput::Probed(modification_time, outcome) => memory.insert(
                cache_key(tool, path),
                probed_entry(tool, path, modification_time, outcome),
            ),
            _ => memory,
        }
    }
}

/// What the store holds after `input`: the outcome of the run in the slot
/// of the tool; in every other case what it held before.
pub open spec fn store_after(
    store: Map<Seq<char>, PersistedView>,
    tool: Seq<char>,
    path: Seq<char>,
    input: VerifyInput,
) -> Map<Seq<char>, PersistedView> {
    if rejection(tool, path) is Some {
        store
    } else {
        match input {
            VerifyInput::Probed(modification_time, outcome) => store.insert(
                tool,
                PersistedView { path, modification_time, ok: outcome is Succeeded },
            ),
            _ => store,
        }
    }
}

/// The argument that makes `tool_name` print its version, if the tool can
/// be checked.
pub fn probe_argument(tool_name: &str) -> (arg: Option<&'static str>)
    ensures
        arg.deep_view() == probe_arg(tool_name@),
{
    if str_eq(tool_name, "yt-dlp") {
        Some("--version")
    } else if str_eq(tool_name, "ffmpeg") {
        Some("-version")
    } else {
        None
    }
}

fn entry_result(entry: &ToolCacheEntry) -> (r: Result<String, String>)
    ensures
        VerifyStep::Done(r)@ == VerifyStepView::Done(replay(entry@)),
{
    if entry.verification_ok {
        Ok(entry.message.clone())
    } else {
        Err(entry.message.clone())
    }
}

fn outcome_entry(tool_name: &str, path: &str, modification_time: u64, outcome: &ProbeOutcome) -> (entry:
    ToolCacheEntry)
    ensures
        entry@ == probed_entry(tool_name@, path@, modification_time, *outcome),
{
    let mut message = String::new();
    let ok = match outcome {
        ProbeOutcome::Succeeded => {
            message.append(tool_name);
            message.append(" found at: ");
            message.append(path);
            true
        },
        ProbeOutcome::Failed(code) => {
            let shown: i64 = match code {
                Some(c) => *c as i64,
                None => -1,
            };
            let digits = signed_decimal_string(shown);
            message.append(tool_name);
            message.append(" is not working at path: ");
            message.append(path);
            message.append(" (exit code: ");
            message.append(digits.as_str());
            message.append(")");
            false
        },
        ProbeOutcome::NotStarted(reason) => {
            message.append("Failed to run ");
            message.append(tool_name);
            message.append(" at path ");
            message.append(path);
            message.append(": ");
            message.append(reason.as_str());
            false
        },
    };
    assert(message@ =~= probed_entry(tool_name@, path@, modification_time, *outcome).message);
    ToolCacheEntry { modification_time, verification_ok: ok, message }
}

fn slot_entry(tool_name: &str, path: &str, slot: &PersistedVerifyCache) -> (entry: ToolCacheEntry)
    ensures
        entry@ == promoted(tool_name@, path@, slot@),
{
    let mut message = String::from_str(tool_name);
    if slot.ok {
        message.append(" found at: ");
    } else {
        message.append(" is not working at path: ");
    }
    message.append(path);
    ToolCacheEntry { modification_time: slot.modification_time, verification_ok: slot.ok, message }
}

/// The verifier of the tools, with its memory.
pub struct ToolVerifier {
    cache: Table<ToolCacheEntry>,
}

impl View for ToolVerifier {
    type V = Map<Seq<char>, ToolCacheEntryView>;

    closed spec fn view(&self) -> Map<Seq<char>, ToolCacheEntryView> {
        self.cache.map().map_values(|entry: ToolCacheEntry| entry@)
    }
}

impl ToolVerifier {
    /// A verifier that remembers nothing.
    pub fn new() -> (verifier: ToolVerifier)
        ensures
            verifier@ == Map::<Seq<char>, ToolCacheEntryView>::empty(),
    {
        let verifier = ToolVerifier { cache: Table::new() };
        assert(verifier@ =~= Map::<Seq<char>, ToolCacheEntryView>::empty());
        verifier
    }

    /// One step of the check of the tool `tool_name` at `path`.
    ///
    /// A check begins with `Begin` and goes on with what each answer asks
    /// for, until the answer is `Done`. A blank path is refused at every
    /// step, before anything else is looked at and with memory and store
    /// left as they are.
    pub fn verify(
        &mut self,
        store: &mut VerifyStore,
        tool_name: &str,
        path: &str,
        input: VerifyInput,
    ) -> (step: VerifyStep)
        ensures
            step@ == step_of(old(self)@, old(store)@, tool_name@, path@, input),
            final(self)@ == memory_after(old(self)@, old(store)@, tool_name@, path@, input),
            final(store)@ == store_after(old(store)@, tool_name@, path@, input),
            blank(path@) ==> step@ == VerifyStepView::Done(Err(not_configured(tool_name@)))
                && final(self)@ == old(self)@ && final(store)@ == old(store)@,
    {
        if is_blank(path) {
            let mut message = String::from_str(tool_name);
            message.append(" bundle path is empty. Tools may not be downloaded yet.");
            return VerifyStep::Done(Err(message));
        }
        let arg = match probe_argument(tool_name) {
            Some(arg) => arg,
            None => {
                let mut message = String::from_str("Program ");
                message.append(tool_name);
                message.append(" is not supported");
                return VerifyStep::Done(Err(message));
            },
        };
        match input {
            VerifyInput::Begin => VerifyStep::Stat,
            VerifyInput::Stat(None) => {
                let mut message = String::from_str(tool_name);
                message.append(" not found at path: ");
                message.append(path);
                VerifyStep::Done(Err(message))
            },
            VerifyInput::Stat(Some(modification_time)) => {
                let key = make_key(tool_name, path);
                match self.cache.get(key.as_str()) {
                    Some(entry) => {
                        if entry.modification_time == modification_time {
                            return VerifyStep::Done(entry_result(entry));
                        }
                    },
                    None => {},
                }
                match store.get_cached_verification(tool_name) {
                    Some(slot) => {
                        if str_eq(slot.path.as_str(), path) && slot.modification_time
                            == modification_time {
                            let entry = slot_entry(tool_name, path, slot);
                            let result = entry_result(&entry);
                            self.cache.insert(key, entry);
                            assert(self@ =~= memory_after(
                                old(self)@,
                                old(store)@,
                                tool_name@,
                                path@,
                                input,
                            ));
                            return VerifyStep::Done(result);
                        }
                    },
                    None => {},
                }
                VerifyStep::Probe { arg: String::from_str(arg), modification_time }
            },
            VerifyInput::Probed(modification_time, outcome) => {
                let key = make_key(tool_name, path);
                let entry = outcome_entry(tool_name, path, modification_time, &outcome);
                let result = entry_result(&entry);
                let ok = entry.verification_ok;
                self.cache.insert(key, entry);
                store.set_cached_verification(
                    String::from_str(tool_name),
                    PersistedVerifyCache { path: String::from_str(path), modification_time, ok },
                );
                assert(self@ =~= memory_after(old(self)@, old(store)@, tool_name@, path@, input));
                VerifyStep::Done(result)
            },
        }
    }
}

fn make_key(tool_name: &str, path: &str) -> (key: String)
    ensures
        key@ == cache_key(tool_name@, path@),
{
    let mut key = String::from_str(tool_name);
    key.append(":");
    key.append(path);
    key
}

/// The path at which a program is looked for: the one that was given,
/// or, where none was, the program's name, which leaves the search to
/// the system.
pub fn command_path(program_name: &str, custom_path: Option<&str>) -> (path: String)
    ensures
        path@ == match custom_path {
            Some(given) => given@,
            None => program_name@,
        },
{
    match custom_path {
        Some(given) => String::from_str(given),
        None => String::from_str(program_name),
    }
}

/// Once the tool was run for a file, asking again while the file's
/// modification time is the same never asks for another run: the answer
/// comes from memory, and it is the result of that run.
pub proof fn law_unchanged_file_is_not_run_again(
    memory: Map<Seq<char>, ToolCacheEntryView>,
    store: Map<Seq<char>, PersistedView>,
    tool: Seq<char>,
    path: Seq<char>,
    modification_time: u64,
    outcome: ProbeOutcome,
)
    ensures
        ({
            let ran = VerifyInput::Probed(modification_time, outcome);
            let memory_then = memory_after(memory, store, tool, path, ran);
            let store_then = store_after(store, tool, path, ran);
            let again = VerifyInput::Stat(Some(modification_time));
            &&& !(step_of(memory_then, store_then, tool, path, again) is Probe)
            &&& rejection(tool, path) is None ==> step_of(memory_then, store_then, tool, path, again)
                == step_of(memory, store, tool, path, ran)
            &&& memory_after(memory_then, store_then, tool, path, again) == memory_then
            &&& store_after(store_then, tool, path, again) == store_then
        }),
{
}

/// Once the tool was run for a file, asking again after the file's
/// modification time has changed asks for another run.
pub proof fn law_changed_file_is_run_again(
    memory: Map<Seq<char>, ToolCacheEntryView>,
    store: Map<Seq<char>, PersistedView>,
    tool: Seq<char>,
    path: Seq<char>,
    modification_time: u64,
    outcome: ProbeOutcome,
    later: u64,
)
    requires
        rejection(tool, path) is None,
        later != modification_time,
    ensures
        ({
            let ran = VerifyInput::Probed(modification_time, outcome);
            let memory_then = memory_after(memory, store, tool, path, ran);
            let store_then = store_after(store, tool, path, ran);
            step_of(memory_then, store_then, tool, path, VerifyInput::Stat(Some(later)))
                == (VerifyStepView::Probe { arg: probe_arg(tool)->Some_0, modification_time: later })
        }),
{
}

/// What was stored of a run answers for it when memory has been lost: a
/// verifier that remembers nothing asks for no run while the file's
/// modification time is the same, finds the tool working exactly if the run
/// succeeded, and remembers the answer from then on.
pub proof fn law_store_outlives_memory(
    store: Map<Seq<char>, PersistedView>,
    tool: Seq<char>,
    path: Seq<char>,
    modification_time: u64,
    outcome: ProbeOutcome,
)
    requires
        rejection(tool, path) is None,
    ensures
        ({
            let ran = VerifyInput::Probed(modification_time, outcome);
            let store_then = store_after(store, tool, path, ran);
            let empty = Map::<Seq<char>, ToolCacheEntryView>::empty();
            let again = VerifyInput::Stat(Some(modification_time));
            let answer = step_of(empty, store_then, tool, path, again);
            &&& answer is Done
            &&& answer->Done_0 is Ok <==> outcome is Succeeded
            &&& memory_hit(
                memory_after(empty, store_then, tool, path, again),
                tool,
                path,
                modification_time,
            )
        }),
{
}

} // verus!
