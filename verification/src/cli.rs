//! Command-line grammar of the control-plane client: turns the argument list into one request,
//! subscription, completion, or help action.

#[allow(unused_imports)]
use vstd::prelude::*;

use crate::text::{
    eq_lit, parse_signed, parse_signed_spec, parse_unsigned, parse_unsigned_spec, starts_with_char,
};

verus! {

/// Read-only queries.
#[derive(Clone, Copy, Debug, PartialEq, Eq, Structural)]
pub enum QueryCommand {
    GetTree,
    GetOutputs,
    GetWorkspaces,
    GetWindows,
    GetKeyboardLayouts,
    GetCommands,
    GetConfig,
    GetClipboard,
    GetPrimarySelection,
    GetPresentAudit,
}

/// Axis of a tiling split.
#[derive(Clone, Copy, Debug, PartialEq, Eq, Structural)]
pub enum SplitAxis {
    Horizontal,
    Vertical,
}

/// Window-management requests.
#[derive(Clone, Debug, PartialEq, Eq)]
pub enum WindowCommand {
    Focus { surface_id: u64 },
    Close { surface_id: u64 },
    Move { surface_id: u64, x: i64, y: i64 },
    Resize { surface_id: u64, width: u32, height: u32 },
    Split { surface_id: u64, axis: SplitAxis },
    Background { surface_id: u64, output: String },
    ClearBackground { surface_id: u64 },
}

/// Popup requests.
#[derive(Clone, Copy, Debug, PartialEq, Eq, Structural)]
pub enum PopupCommand {
    Dismiss { surface_id: u64 },
}

/// Workspace requests.
#[derive(Clone, Debug, PartialEq, Eq)]
pub enum WorkspaceCommand {
    Switch { workspace: String },
    Create { workspace: String },
    Destroy { workspace: String },
}

/// Output requests.
#[derive(Clone, Debug, PartialEq, Eq)]
pub enum OutputCommand {
    Enable { output: String },
    Disable { output: String },
    Configure { output: String, mode: String, scale: Option<u32> },
    ViewportMove { output: String, x: i64, y: i64 },
    ViewportPan { output: String, dx: i64, dy: i64 },
    CenterViewportOnWindow { output: String, surface_id: u64 },
}

/// Higher-level shell actions.
#[derive(Clone, Debug, PartialEq, Eq)]
pub enum ActionCommand {
    FocusWorkspace { workspace: String },
    FocusWindow { id: u64 },
    CloseWindow { id: u64 },
    Spawn { command: Vec<String> },
    SwitchKeyboardLayoutNext,
    SwitchKeyboardLayoutPrev,
    SwitchKeyboardLayoutByName { name: String },
    SwitchKeyboardLayoutByIndex { index: usize },
    ReloadConfig,
    Quit,
    PowerOffMonitors,
    PowerOnMonitors,
}

/// One request sent over the control socket.
#[derive(Clone, Debug, PartialEq, Eq)]
pub enum IpcCommand {
    Query(QueryCommand),
    Window(WindowCommand),
    Popup(PopupCommand),
    Workspace(WorkspaceCommand),
    Output(OutputCommand),
    Action(ActionCommand),
    /// An unknown command word, forwarded verbatim (its words joined by spaces).
    Raw(String),
}

/// Event stream a subscription listens to.
#[derive(Clone, Copy, Debug, PartialEq, Eq, Structural)]
pub enum SubscriptionTopic {
    Window,
    Popup,
    Workspace,
    Output,
    Command,
    Config,
    KeyboardLayout,
    Clipboard,
    PrimarySelection,
    Focus,
    Tree,
    PresentAudit,
    All,
}

/// A subscription request.
#[derive(Clone, Debug, PartialEq, Eq)]
pub struct IpcSubscription {
    pub topic: SubscriptionTopic,
    pub include_payloads: bool,
    pub events: Vec<String>,
}

/// Rendering of subscription events.
#[derive(Clone, Copy, Debug, PartialEq, Eq, Structural)]
pub enum SubscriptionOutputMode {
    Pretty,
    Jsonl,
}

/// Rendering of the subscription help.
#[derive(Clone, Copy, Debug, PartialEq, Eq, Structural)]
pub enum HelpOutputMode {
    Text,
    Json,
}

/// Shells completion scripts can be generated for.
#[derive(Clone, Copy, Debug, PartialEq, Eq, Structural)]
pub enum CompletionShellArg {
    Bash,
    Zsh,
    Fish,
}

/// Normalized subscribe command.
#[derive(Clone, Debug, PartialEq, Eq)]
pub struct SubscriptionCommand {
    pub subscription: IpcSubscription,
    pub output_mode: SubscriptionOutputMode,
}

/// What the client does after parsing its arguments.
#[derive(Clone, Debug, PartialEq, Eq)]
pub enum ParsedAction {
    Request(IpcCommand),
    Completion(CompletionShellArg),
    Subscribe(SubscriptionCommand),
    SubscriptionHelp(HelpOutputMode),
}

/// Why the arguments were not turned into an action.
#[derive(Clone, Copy, Debug, PartialEq, Eq, Structural)]
pub enum CliErrorKind {
    /// `-h`/`--help` was given: the caller prints usage and exits successfully.
    DisplayHelp,
    /// A command group was given without a subcommand.
    MissingSubcommand,
    /// A word is not a subcommand of its group.
    InvalidSubcommand,
    /// An unknown flag or an extra positional argument.
    UnknownArgument,
    /// A required argument is missing.
    MissingRequiredArgument,
    /// A value does not parse (number, enum name, or a flag without its value).
    InvalidValue,
    /// Two flags that exclude each other were both given.
    ArgumentConflict,
}

/// A rejected argument list.
#[derive(Clone, Copy, Debug, PartialEq, Eq, Structural)]
pub struct CliError {
    pub kind: CliErrorKind,
}

impl CliError {
    /// Whether the error is reported on stderr with a failing exit status (everything but help).
    pub fn use_stderr(&self) -> (result: bool)
        ensures
            result == (self.kind != CliErrorKind::DisplayHelp),
    {
        match self.kind {
            CliErrorKind::DisplayHelp => false,
            _ => true,
        }
    }
}

/// Error of the given kind.
pub open spec fn err(kind: CliErrorKind) -> CliError {
    CliError { kind }
}

fn error(kind: CliErrorKind) -> (e: CliError)
    ensures
        e == err(kind),
{
    CliError { kind }
}

/// Whether a word is `-h` or `--help`.
pub open spec fn is_help(word: Seq<char>) -> bool {
    word == "-h"@ || word == "--help"@
}

/// Whether a word looks like a flag (a dash followed by something).
pub open spec fn flag_like(word: Seq<char>) -> bool {
    word.len() > 1 && word[0] == '-'
}

fn is_help_word(word: &String) -> (result: bool)
    ensures
        result == is_help(word@),
{
    eq_lit(word, "-h") || eq_lit(word, "--help")
}

fn is_flag_like(word: &String) -> (result: bool)
    ensures
        result == flag_like(word@),
{
    starts_with_char(word, '-') && word.as_str().unicode_len() > 1
}

/// Kind of value a positional slot takes.
#[derive(Clone, Copy, Debug, PartialEq, Eq, Structural)]
pub enum Slot {
    U64,
    U32,
    Usize,
    I64,
    Text,
    Axis,
    Shell,
}

/// Split axis named by a word.
pub open spec fn axis_spec(word: Seq<char>) -> Option<SplitAxis> {
    if word == "horizontal"@ {
        Some(SplitAxis::Horizontal)
    } else if word == "vertical"@ {
        Some(SplitAxis::Vertical)
    } else {
        None
    }
}

/// Shell named by a word.
pub open spec fn shell_spec(word: Seq<char>) -> Option<CompletionShellArg> {
    if word == "bash"@ {
        Some(CompletionShellArg::Bash)
    } else if word == "zsh"@ {
        Some(CompletionShellArg::Zsh)
    } else if word == "fish"@ {
        Some(CompletionShellArg::Fish)
    } else {
        None
    }
}

/// Whether a word is a valid value for the slot.
pub open spec fn slot_accepts(slot: Slot, word: Seq<char>) -> bool {
    match slot {
        Slot::U64 => parse_unsigned_spec(word, u64::MAX as int) is Some,
        Slot::U32 => parse_unsigned_spec(word, u32::MAX as int) is Some,
        Slot::Usize => parse_unsigned_spec(word, usize::MAX as int) is Some,
        Slot::I64 => parse_signed_spec(word, i64::MIN as int, i64::MAX as int) is Some,
        Slot::Text => true,
        Slot::Axis => axis_spec(word) is Some,
        Slot::Shell => shell_spec(word) is Some,
    }
}

/// Whether the slot takes values that start with a dash (signed numbers).
pub open spec fn slot_takes_hyphen(slot: Slot) -> bool {
    slot == Slot::I64
}

/// First problem met scanning the words of a leaf command from `i` on: a help flag, a flag the
/// slot does not accept, a word beyond the last slot, or a value the slot rejects.
pub open spec fn scan_leaf(words: Seq<Seq<char>>, slots: Seq<Slot>, i: int) -> Option<CliError>
    decreases words.len() - i,
{
    if i < 0 || i >= words.len() {
        None
    } else {
        let word = words[i];
        if is_help(word) {
            Some(err(CliErrorKind::DisplayHelp))
        } else if i >= slots.len() {
            Some(err(CliErrorKind::UnknownArgument))
        } else if flag_like(word) && !slot_takes_hyphen(slots[i]) {
            Some(err(CliErrorKind::UnknownArgument))
        } else if !slot_accepts(slots[i], word) {
            Some(err(CliErrorKind::InvalidValue))
        } else {
            scan_leaf(words, slots, i + 1)
        }
    }
}

/// Error of a leaf command with the given slots, of which the first `required` must be given.
pub open spec fn leaf_error(words: Seq<Seq<char>>, slots: Seq<Slot>, required: int) -> Option<
    CliError,
> {
    match scan_leaf(words, slots, 0) {
        Some(e) => Some(e),
        None => if words.len() < required {
            Some(err(CliErrorKind::MissingRequiredArgument))
        } else {
            None
        },
    }
}

fn slot_accepts_word(slot: Slot, word: &String) -> (result: bool)
    ensures
        result == slot_accepts(slot, word@),
{
    match slot {
        Slot::U64 => parse_unsigned(word, u64::MAX).is_some(),
        Slot::U32 => parse_unsigned(word, u32::MAX as u64).is_some(),
        Slot::Usize => parse_unsigned(word, usize::MAX as u64).is_some(),
        Slot::I64 => parse_signed(word, i64::MAX as u64).is_some(),
        Slot::Text => true,
        Slot::Axis => parse_axis(word).is_some(),
        Slot::Shell => parse_shell(word).is_some(),
    }
}

fn parse_axis(word: &String) -> (result: Option<SplitAxis>)
    ensures
        result == axis_spec(word@),
{
    if eq_lit(word, "horizontal") {
        Some(SplitAxis::Horizontal)
    } else if eq_lit(word, "vertical") {
        Some(SplitAxis::Vertical)
    } else {
        None
    }
}

fn parse_shell(word: &String) -> (result: Option<CompletionShellArg>)
    ensures
        result == shell_spec(word@),
{
    if eq_lit(word, "bash") {
        Some(CompletionShellArg::Bash)
    } else if eq_lit(word, "zsh") {
        Some(CompletionShellArg::Zsh)
    } else if eq_lit(word, "fish") {
        Some(CompletionShellArg::Fish)
    } else {
        None
    }
}

/// Views of the words from index `start` on.
pub open spec fn words_from(args: Seq<String>, start: int) -> Seq<Seq<char>> {
    args.subrange(start, args.len() as int).map_values(|word: String| word@)
}

fn leaf_check(args: &Vec<String>, start: usize, slots: &Vec<Slot>, required: usize) -> (result:
    Option<CliError>)
    requires
        start <= args.len(),
    ensures
        result == leaf_error(words_from(args@, start as int), slots@, required as int),
{
    let ghost words = words_from(args@, start as int);
    let mut i = start;
    while i < args.len()
        invariant
            start <= i <= args.len(),
            words == words_from(args@, start as int),
            scan_leaf(words, slots@, 0) == scan_leaf(words, slots@, (i - start) as int),
        decreases args.len() - i,
    {
        let word = &args[i];
        let k = i - start;
        assert(words[k as int] == word@);
        if is_help_word(word) {
            return Some(error(CliErrorKind::DisplayHelp));
        }
        if k >= slots.len() {
            return Some(error(CliErrorKind::UnknownArgument));
        }
        let slot = slots[k];
        if is_flag_like(word) && slot != Slot::I64 {
            return Some(error(CliErrorKind::UnknownArgument));
        }
        if !slot_accepts_word(slot, word) {
            return Some(error(CliErrorKind::InvalidValue));
        }
        i += 1;
    }
    if args.len() - start < required {
        Some(error(CliErrorKind::MissingRequiredArgument))
    } else {
        None
    }
}

/// Value of an unsigned word known to parse.
pub open spec fn u64_of(word: Seq<char>) -> u64 {
    parse_unsigned_spec(word, u64::MAX as int)->0 as u64
}

/// Value of a `u32` word known to parse.
pub open spec fn u32_of(word: Seq<char>) -> u32 {
    parse_unsigned_spec(word, u32::MAX as int)->0 as u32
}

/// Value of a `usize` word known to parse.
pub open spec fn usize_of(word: Seq<char>) -> usize {
    parse_unsigned_spec(word, usize::MAX as int)->0 as usize
}

/// Value of an `i64` word known to parse.
pub open spec fn i64_of(word: Seq<char>) -> i64 {
    parse_signed_spec(word, i64::MIN as int, i64::MAX as int)->0 as i64
}

fn u64_at(args: &Vec<String>, i: usize) -> (value: u64)
    requires
        i < args.len(),
        slot_accepts(Slot::U64, args@[i as int]@),
    ensures
        value == u64_of(args@[i as int]@),
{
    match parse_unsigned(&args[i], u64::MAX) {
        Some(v) => v,
        None => 0,
    }
}

fn u32_at(args: &Vec<String>, i: usize) -> (value: u32)
    requires
        i < args.len(),
        slot_accepts(Slot::U32, args@[i as int]@),
    ensures
        value == u32_of(args@[i as int]@),
{
    match parse_unsigned(&args[i], u32::MAX as u64) {
        Some(v) => v as u32,
        None => 0,
    }
}

fn usize_at(args: &Vec<String>, i: usize) -> (value: usize)
    requires
        i < args.len(),
        slot_accepts(Slot::Usize, args@[i as int]@),
    ensures
        value == usize_of(args@[i as int]@),
{
    match parse_unsigned(&args[i], usize::MAX as u64) {
        Some(v) => v as usize,
        None => 0,
    }
}

fn i64_at(args: &Vec<String>, i: usize) -> (value: i64)
    requires
        i < args.len(),
        slot_accepts(Slot::I64, args@[i as int]@),
    ensures
        value == i64_of(args@[i as int]@),
{
    match parse_signed(&args[i], i64::MAX as u64) {
        Some(v) => v as i64,
        None => 0,
    }
}

/// Error of a command group's head: a missing subcommand or a help flag in its place.
pub open spec fn group_head_error(words: Seq<Seq<char>>) -> Option<CliError> {
    if words.len() == 0 {
        Some(err(CliErrorKind::MissingSubcommand))
    } else if is_help(words[0]) {
        Some(err(CliErrorKind::DisplayHelp))
    } else {
        None
    }
}

/// Error for a word that names no subcommand of its group.
pub open spec fn unknown_subcommand(word: Seq<char>) -> CliError {
    if flag_like(word) {
        err(CliErrorKind::UnknownArgument)
    } else {
        err(CliErrorKind::InvalidSubcommand)
    }
}

fn group_head(args: &Vec<String>, start: usize) -> (result: Option<CliError>)
    requires
        start <= args.len(),
    ensures
        result == group_head_error(words_from(args@, start as int)),
{
    let ghost words = words_from(args@, start as int);
    if start >= args.len() {
        return Some(error(CliErrorKind::MissingSubcommand));
    }
    assert(words[0] == args@[start as int]@);
    if is_help_word(&args[start]) {
        return Some(error(CliErrorKind::DisplayHelp));
    }
    None
}

fn unknown_subcommand_error(word: &String) -> (e: CliError)
    ensures
        e == unknown_subcommand(word@),
{
    if is_flag_like(word) {
        error(CliErrorKind::UnknownArgument)
    } else {
        error(CliErrorKind::InvalidSubcommand)
    }
}

/// Query named by a `query` subcommand word.
pub open spec fn query_target(word: Seq<char>) -> Option<QueryCommand> {
    if word == "tree"@ {
        Some(QueryCommand::GetTree)
    } else if word == "outputs"@ {
        Some(QueryCommand::GetOutputs)
    } else if word == "workspaces"@ {
        Some(QueryCommand::GetWorkspaces)
    } else if word == "windows"@ {
        Some(QueryCommand::GetWindows)
    } else if word == "keyboard-layouts"@ {
        Some(QueryCommand::GetKeyboardLayouts)
    } else if word == "commands"@ {
        Some(QueryCommand::GetCommands)
    } else if word == "config"@ {
        Some(QueryCommand::GetConfig)
    } else if word == "clipboard"@ {
        Some(QueryCommand::GetClipboard)
    } else if word == "primary-selection"@ {
        Some(QueryCommand::GetPrimarySelection)
    } else if word == "present-audit"@ {
        Some(QueryCommand::GetPresentAudit)
    } else {
        None
    }
}

fn query_target_of(word: &String) -> (result: Option<QueryCommand>)
    ensures
        result == query_target(word@),
{
    if eq_lit(word, "tree") {
        Some(QueryCommand::GetTree)
    } else if eq_lit(word, "outputs") {
        Some(QueryCommand::GetOutputs)
    } else if eq_lit(word, "workspaces") {
        Some(QueryCommand::GetWorkspaces)
    } else if eq_lit(word, "windows") {
        Some(QueryCommand::GetWindows)
    } else if eq_lit(word, "keyboard-layouts") {
        Some(QueryCommand::GetKeyboardLayouts)
    } else if eq_lit(word, "commands") {
        Some(QueryCommand::GetCommands)
    } else if eq_lit(word, "config") {
        Some(QueryCommand::GetConfig)
    } else if eq_lit(word, "clipboard") {
        Some(QueryCommand::GetClipboard)
    } else if eq_lit(word, "primary-selection") {
        Some(QueryCommand::GetPrimarySelection)
    } else if eq_lit(word, "present-audit") {
        Some(QueryCommand::GetPresentAudit)
    } else {
        None
    }
}

/// Outcome of `query <target>`.
pub open spec fn query_outcome(words: Seq<Seq<char>>, result: Result<ParsedAction, CliError>) -> bool {
    match group_head_error(words) {
        Some(e) => result == Err::<ParsedAction, CliError>(e),
        None => match query_target(words[0]) {
            None => result == Err::<ParsedAction, CliError>(unknown_subcommand(words[0])),
            Some(query) => match leaf_error(words.drop_first(), Seq::empty(), 0) {
                Some(e) => result == Err::<ParsedAction, CliError>(e),
                None => result == Ok::<ParsedAction, CliError>(ParsedAction::Request(IpcCommand::Query(query))),
            },
        },
    }
}

proof fn lemma_words_from_step(args: Seq<String>, start: int)
    requires
        0 <= start < args.len(),
    ensures
        words_from(args, start).len() > 0,
        words_from(args, start)[0] == args[start]@,
        words_from(args, start).drop_first() == words_from(args, start + 1),
{
    assert(words_from(args, start).drop_first() =~= words_from(args, start + 1));
}

fn parse_query(args: &Vec<String>, start: usize) -> (result: Result<ParsedAction, CliError>)
    requires
        start <= args.len(),
    ensures
        query_outcome(words_from(args@, start as int), result),
{
    if let Some(e) = group_head(args, start) {
        return Err(e);
    }
    proof {
        lemma_words_from_step(args@, start as int);
    }
    let query = match query_target_of(&args[start]) {
        Some(query) => query,
        None => return Err(unknown_subcommand_error(&args[start])),
    };
    let no_slots: Vec<Slot> = Vec::new();
    match leaf_check(args, start + 1, &no_slots, 0) {
        Some(e) => Err(e),
        None => Ok(ParsedAction::Request(IpcCommand::Query(query))),
    }
}

/// A leaf that passed its checks accepts every word in its slot, and has at least `required`
/// and at most `slots.len()` words.
pub proof fn lemma_leaf_ok(words: Seq<Seq<char>>, slots: Seq<Slot>, required: int)
    requires
        leaf_error(words, slots, required) is None,
    ensures
        required <= words.len() <= slots.len(),
        forall|i: int| 0 <= i < words.len() ==> slot_accepts(slots[i], #[trigger] words[i]),
{
    lemma_scan_ok(words, slots, 0);
}

proof fn lemma_scan_ok(words: Seq<Seq<char>>, slots: Seq<Slot>, start: int)
    requires
        0 <= start,
        scan_leaf(words, slots, start) is None,
    ensures
        words.len() <= slots.len() || words.len() <= start,
        forall|i: int| start <= i < words.len() ==> slot_accepts(slots[i], #[trigger] words[i]),
    decreases words.len() - start,
{
    if start < words.len() {
        lemma_scan_ok(words, slots, start + 1);
    }
}

/// Outcome of a leaf: its error, or the outcome `ok` when the words fit its slots.
pub open spec fn leaf_outcome(
    words: Seq<Seq<char>>,
    slots: Seq<Slot>,
    required: int,
    result: Result<ParsedAction, CliError>,
    ok: bool,
) -> bool {
    match leaf_error(words, slots, required) {
        Some(e) => result == Err::<ParsedAction, CliError>(e),
        None => ok,
    }
}

/// Outcome of `window <action> ...`.
pub open spec fn window_outcome(words: Seq<Seq<char>>, result: Result<ParsedAction, CliError>) -> bool {
    match group_head_error(words) {
        Some(e) => result == Err::<ParsedAction, CliError>(e),
        None => {
            let name = words[0];
            let rest = words.drop_first();
            if name == "focus"@ {
                leaf_outcome(rest, seq![Slot::U64], 1, result,
                    result == Ok::<ParsedAction, CliError>(ParsedAction::Request(IpcCommand::Window(WindowCommand::Focus { surface_id: u64_of(rest[0]) }))))
            } else if name == "close"@ {
                leaf_outcome(rest, seq![Slot::U64], 1, result,
                    result == Ok::<ParsedAction, CliError>(ParsedAction::Request(IpcCommand::Window(WindowCommand::Close { surface_id: u64_of(rest[0]) }))))
            } else if name == "move"@ {
                leaf_outcome(rest, seq![Slot::U64, Slot::I64, Slot::I64], 3, result,
                    result == Ok::<ParsedAction, CliError>(ParsedAction::Request(IpcCommand::Window(WindowCommand::Move {
                        surface_id: u64_of(rest[0]), x: i64_of(rest[1]), y: i64_of(rest[2]) }))))
            } else if name == "resize"@ {
                leaf_outcome(rest, seq![Slot::U64, Slot::U32, Slot::U32], 3, result,
                    result == Ok::<ParsedAction, CliError>(ParsedAction::Request(IpcCommand::Window(WindowCommand::Resize {
                        surface_id: u64_of(rest[0]), width: u32_of(rest[1]), height: u32_of(rest[2]) }))))
            } else if name == "split"@ {
                leaf_outcome(rest, seq![Slot::U64, Slot::Axis], 2, result,
                    result == Ok::<ParsedAction, CliError>(ParsedAction::Request(IpcCommand::Window(WindowCommand::Split {
                        surface_id: u64_of(rest[0]), axis: axis_spec(rest[1])->0 }))))
            } else if name == "background"@ {
                leaf_outcome(rest, seq![Slot::U64, Slot::Text], 2, result,
                    result matches Ok(ParsedAction::Request(IpcCommand::Window(WindowCommand::Background { surface_id, output })))
                        && surface_id == u64_of(rest[0]) && output@ == rest[1])
            } else if name == "clear-background"@ {
                leaf_outcome(rest, seq![Slot::U64], 1, result,
                    result == Ok::<ParsedAction, CliError>(ParsedAction::Request(IpcCommand::Window(WindowCommand::ClearBackground { surface_id: u64_of(rest[0]) }))))
            } else {
                result == Err::<ParsedAction, CliError>(unknown_subcommand(name))
            }
        },
    }
}

fn parse_window(args: &Vec<String>, start: usize) -> (result: Result<ParsedAction, CliError>)
    requires
        start <= args.len(),
    ensures
        window_outcome(words_from(args@, start as int), result),
{
    if let Some(e) = group_head(args, start) {
        return Err(e);
    }
    proof {
        lemma_words_from_step(args@, start as int);
    }
    let ghost rest = words_from(args@, start as int + 1);
    let name = &args[start];
    let first = start + 1;
    if eq_lit(name, "focus") || eq_lit(name, "close") {
        let slots = vec![Slot::U64];
        assert(slots@ =~= seq![Slot::U64]);
        if let Some(e) = leaf_check(args, first, &slots, 1) {
            return Err(e);
        }
        proof {
            lemma_leaf_ok(rest, slots@, 1);
            assert(rest[0] == args@[first as int]@);
        }
        let surface_id = u64_at(args, first);
        let command = if eq_lit(name, "focus") {
            WindowCommand::Focus { surface_id }
        } else {
            WindowCommand::Close { surface_id }
        };
        return Ok(ParsedAction::Request(IpcCommand::Window(command)));
    }
    if eq_lit(name, "move") {
        let slots = vec![Slot::U64, Slot::I64, Slot::I64];
        if let Some(e) = leaf_check(args, first, &slots, 3) {
            return Err(e);
        }
        proof {
            lemma_leaf_ok(rest, slots@, 3);
            assert(rest[0] == args@[first as int]@);
            assert(rest[1] == args@[first + 1]@);
            assert(rest[2] == args@[first + 2]@);
        }
        let surface_id = u64_at(args, first);
        let x = i64_at(args, first + 1);
        let y = i64_at(args, first + 2);
        return Ok(ParsedAction::Request(IpcCommand::Window(WindowCommand::Move { surface_id, x, y })));
    }
    if eq_lit(name, "resize") {
        let slots = vec![Slot::U64, Slot::U32, Slot::U32];
        if let Some(e) = leaf_check(args, first, &slots, 3) {
            return Err(e);
        }
        proof {
            lemma_leaf_ok(rest, slots@, 3);
            assert(rest[0] == args@[first as int]@);
            assert(rest[1] == args@[first + 1]@);
            assert(rest[2] == args@[first + 2]@);
        }
        let surface_id = u64_at(args, first);
        let width = u32_at(args, first + 1);
        let height = u32_at(args, first + 2);
        return Ok(ParsedAction::Request(IpcCommand::Window(WindowCommand::Resize { surface_id, width, height })));
    }
    if eq_lit(name, "split") {
        let slots = vec![Slot::U64, Slot::Axis];
        if let Some(e) = leaf_check(args, first, &slots, 2) {
            return Err(e);
        }
        proof {
            lemma_leaf_ok(rest, slots@, 2);
            assert(rest[0] == args@[first as int]@);
            assert(rest[1] == args@[first + 1]@);
        }
        let surface_id = u64_at(args, first);
        let axis = match parse_axis(&args[first + 1]) {
            Some(axis) => axis,
            None => SplitAxis::Horizontal,
        };
        return Ok(ParsedAction::Request(IpcCommand::Window(WindowCommand::Split { surface_id, axis })));
    }
    if eq_lit(name, "background") {
        let slots = vec![Slot::U64, Slot::Text];
        if let Some(e) = leaf_check(args, first, &slots, 2) {
            return Err(e);
        }
        proof {
            lemma_leaf_ok(rest, slots@, 2);
            assert(rest[0] == args@[first as int]@);
            assert(rest[1] == args@[first + 1]@);
        }
        let surface_id = u64_at(args, first);
        let output = args[first + 1].clone();
        return Ok(ParsedAction::Request(IpcCommand::Window(WindowCommand::Background { surface_id, output })));
    }
    if eq_lit(name, "clear-background") {
        let slots = vec![Slot::U64];
        assert(slots@ =~= seq![Slot::U64]);
        if let Some(e) = leaf_check(args, first, &slots, 1) {
            return Err(e);
        }
        proof {
            lemma_leaf_ok(rest, slots@, 1);
            assert(rest[0] == args@[first as int]@);
        }
        let surface_id = u64_at(args, first);
        return Ok(ParsedAction::Request(IpcCommand::Window(WindowCommand::ClearBackground { surface_id })));
    }
    Err(unknown_subcommand_error(name))
}

/// Outcome of `popup <action> ...`.
pub open spec fn popup_outcome(words: Seq<Seq<char>>, result: Result<ParsedAction, CliError>) -> bool {
    match group_head_error(words) {
        Some(e) => result == Err::<ParsedAction, CliError>(e),
        None => {
            let name = words[0];
            let rest = words.drop_first();
            if name == "dismiss"@ {
                leaf_outcome(rest, seq![Slot::U64], 1, result,
                    result == Ok::<ParsedAction, CliError>(ParsedAction::Request(IpcCommand::Popup(PopupCommand::Dismiss { surface_id: u64_of(rest[0]) }))))
            } else {
                result == Err::<ParsedAction, CliError>(unknown_subcommand(name))
            }
        },
    }
}

fn parse_popup(args: &Vec<String>, start: usize) -> (result: Result<ParsedAction, CliError>)
    requires
        start <= args.len(),
    ensures
        popup_outcome(words_from(args@, start as int), result),
{
    if let Some(e) = group_head(args, start) {
        return Err(e);
    }
    proof {
        lemma_words_from_step(args@, start as int);
    }
    let ghost rest = words_from(args@, start as int + 1);
    let name = &args[start];
    let first = start + 1;
    if eq_lit(name, "dismiss") {
        let slots = vec![Slot::U64];
        assert(slots@ =~= seq![Slot::U64]);
        if let Some(e) = leaf_check(args, first, &slots, 1) {
            return Err(e);
        }
        proof {
            lemma_leaf_ok(rest, slots@, 1);
            assert(rest[0] == args@[first as int]@);
        }
        let surface_id = u64_at(args, first);
        return Ok(ParsedAction::Request(IpcCommand::Popup(PopupCommand::Dismiss { surface_id })));
    }
    Err(unknown_subcommand_error(name))
}

/// Outcome of `workspace <action> <workspace>`.
pub open spec fn workspace_outcome(words: Seq<Seq<char>>, result: Result<ParsedAction, CliError>) -> bool {
    match group_head_error(words) {
        Some(e) => result == Err::<ParsedAction, CliError>(e),
        None => {
            let name = words[0];
            let rest = words.drop_first();
            if name == "switch"@ {
                leaf_outcome(rest, seq![Slot::Text], 1, result,
                    result matches Ok(ParsedAction::Request(IpcCommand::Workspace(WorkspaceCommand::Switch { workspace }))) && workspace@ == rest[0])
            } else if name == "create"@ {
                leaf_outcome(rest, seq![Slot::Text], 1, result,
                    result matches Ok(ParsedAction::Request(IpcCommand::Workspace(WorkspaceCommand::Create { workspace }))) && workspace@ == rest[0])
            } else if name == "destroy"@ {
                leaf_outcome(rest, seq![Slot::Text], 1, result,
                    result matches Ok(ParsedAction::Request(IpcCommand::Workspace(WorkspaceCommand::Destroy { workspace }))) && workspace@ == rest[0])
            } else {
                result == Err::<ParsedAction, CliError>(unknown_subcommand(name))
            }
        },
    }
}

fn parse_workspace(args: &Vec<String>, start: usize) -> (result: Result<ParsedAction, CliError>)
    requires
        start <= args.len(),
    ensures
        workspace_outcome(words_from(args@, start as int), result),
{
    if let Some(e) = group_head(args, start) {
        return Err(e);
    }
    proof {
        lemma_words_from_step(args@, start as int);
    }
    let ghost rest = words_from(args@, start as int + 1);
    let name = &args[start];
    let first = start + 1;
    if eq_lit(name, "switch") || eq_lit(name, "create") || eq_lit(name, "destroy") {
        let slots = vec![Slot::Text];
        assert(slots@ =~= seq![Slot::Text]);
        if let Some(e) = leaf_check(args, first, &slots, 1) {
            return Err(e);
        }
        proof {
            lemma_leaf_ok(rest, slots@, 1);
            assert(rest[0] == args@[first as int]@);
        }
        let workspace = args[first].clone();
        let command = if eq_lit(name, "switch") {
            WorkspaceCommand::Switch { workspace }
        } else if eq_lit(name, "create") {
            WorkspaceCommand::Create { workspace }
        } else {
            WorkspaceCommand::Destroy { workspace }
        };
        return Ok(ParsedAction::Request(IpcCommand::Workspace(command)));
    }
    Err(unknown_subcommand_error(name))
}

/// Outcome of `output <action> ...`.
pub open spec fn output_outcome(words: Seq<Seq<char>>, result: Result<ParsedAction, CliError>) -> bool {
    match group_head_error(words) {
        Some(e) => result == Err::<ParsedAction, CliError>(e),
        None => {
            let name = words[0];
            let rest = words.drop_first();
            if name == "enable"@ {
                leaf_outcome(rest, seq![Slot::Text], 1, result,
                    result matches Ok(ParsedAction::Request(IpcCommand::Output(OutputCommand::Enable { output }))) && output@ == rest[0])
            } else if name == "disable"@ {
                leaf_outcome(rest, seq![Slot::Text], 1, result,
                    result matches Ok(ParsedAction::Request(IpcCommand::Output(OutputCommand::Disable { output }))) && output@ == rest[0])
            } else if name == "configure"@ {
                leaf_outcome(rest, seq![Slot::Text, Slot::Text, Slot::U32], 2, result,
                    result matches Ok(ParsedAction::Request(IpcCommand::Output(OutputCommand::Configure { output, mode, scale })))
                        && output@ == rest[0] && mode@ == rest[1]
                        && scale == (if rest.len() > 2 { Some(u32_of(rest[2])) } else { None }))
            } else if name == "viewport-move"@ {
                leaf_outcome(rest, seq![Slot::Text, Slot::I64, Slot::I64], 3, result,
                    result matches Ok(ParsedAction::Request(IpcCommand::Output(OutputCommand::ViewportMove { output, x, y })))
                        && output@ == rest[0] && x == i64_of(rest[1]) && y == i64_of(rest[2]))
            } else if name == "viewport-pan"@ {
                leaf_outcome(rest, seq![Slot::Text, Slot::I64, Slot::I64], 3, result,
                    result matches Ok(ParsedAction::Request(IpcCommand::Output(OutputCommand::ViewportPan { output, dx, dy })))
                        && output@ == rest[0] && dx == i64_of(rest[1]) && dy == i64_of(rest[2]))
            } else if name == "center-viewport-on-window"@ {
                leaf_outcome(rest, seq![Slot::Text, Slot::U64], 2, result,
                    result matches Ok(ParsedAction::Request(IpcCommand::Output(OutputCommand::CenterViewportOnWindow { output, surface_id })))
                        && output@ == rest[0] && surface_id == u64_of(rest[1]))
            } else {
                result == Err::<ParsedAction, CliError>(unknown_subcommand(name))
            }
        },
    }
}

fn parse_output(args: &Vec<String>, start: usize) -> (result: Result<ParsedAction, CliError>)
    requires
        start <= args.len(),
    ensures
        output_outcome(words_from(args@, start as int), result),
{
    if let Some(e) = group_head(args, start) {
        return Err(e);
    }
    proof {
        lemma_words_from_step(args@, start as int);
    }
    let ghost rest = words_from(args@, start as int + 1);
    let name = &args[start];
    let first = start + 1;
    if eq_lit(name, "enable") || eq_lit(name, "disable") {
        let slots = vec![Slot::Text];
        assert(slots@ =~= seq![Slot::Text]);
        if let Some(e) = leaf_check(args, first, &slots, 1) {
            return Err(e);
        }
        proof {
            lemma_leaf_ok(rest, slots@, 1);
            assert(rest[0] == args@[first as int]@);
        }
        let output = args[first].clone();
        let command = if eq_lit(name, "enable") {
            OutputCommand::Enable { output }
        } else {
            OutputCommand::Disable { output }
        };
        return Ok(ParsedAction::Request(IpcCommand::Output(command)));
    }
    if eq_lit(name, "configure") {
        let slots = vec![Slot::Text, Slot::Text, Slot::U32];
        assert(slots@ =~= seq![Slot::Text, Slot::Text, Slot::U32]);
        if let Some(e) = leaf_check(args, first, &slots, 2) {
            return Err(e);
        }
        proof {
            lemma_leaf_ok(rest, slots@, 2);
            assert(rest[0] == args@[first as int]@);
            assert(rest[1] == args@[first + 1]@);
            if rest.len() > 2 {
                assert(rest[2] == args@[first + 2]@);
            }
        }
        let output = args[first].clone();
        let mode = args[first + 1].clone();
        let scale = if args.len() > first + 2 {
            Some(u32_at(args, first + 2))
        } else {
            None
        };
        return Ok(ParsedAction::Request(IpcCommand::Output(OutputCommand::Configure { output, mode, scale })));
    }
    if eq_lit(name, "viewport-move") || eq_lit(name, "viewport-pan") {
        let slots = vec![Slot::Text, Slot::I64, Slot::I64];
        assert(slots@ =~= seq![Slot::Text, Slot::I64, Slot::I64]);
        if let Some(e) = leaf_check(args, first, &slots, 3) {
            return Err(e);
        }
        proof {
            lemma_leaf_ok(rest, slots@, 3);
            assert(rest[0] == args@[first as int]@);
            assert(rest[1] == args@[first + 1]@);
            assert(rest[2] == args@[first + 2]@);
        }
        let output = args[first].clone();
        let x = i64_at(args, first + 1);
        let y = i64_at(args, first + 2);
        let command = if eq_lit(name, "viewport-move") {
            OutputCommand::ViewportMove { output, x, y }
        } else {
            OutputCommand::ViewportPan { output, dx: x, dy: y }
        };
        return Ok(ParsedAction::Request(IpcCommand::Output(command)));
    }
    if eq_lit(name, "center-viewport-on-window") {
        let slots = vec![Slot::Text, Slot::U64];
        assert(slots@ =~= seq![Slot::Text, Slot::U64]);
        if let Some(e) = leaf_check(args, first, &slots, 2) {
            return Err(e);
        }
        proof {
            lemma_leaf_ok(rest, slots@, 2);
            assert(rest[0] == args@[first as int]@);
            assert(rest[1] == args@[first + 1]@);
        }
        let output = args[first].clone();
        let surface_id = u64_at(args, first + 1);
        return Ok(ParsedAction::Request(IpcCommand::Output(OutputCommand::CenterViewportOnWindow { output, surface_id })));
    }
    Err(unknown_subcommand_error(name))
}

/// Result of scanning the words of `focus-window`/`close-window` for their required `--id`
/// option (as `--id <n>` or `--id=<n>`), from word `i` on with `found` seen so far.
pub open spec fn scan_id(words: Seq<Seq<char>>, i: int, found: Option<u64>) -> Result<Option<u64>, CliError>
    decreases words.len() - i,
{
    if i < 0 || i >= words.len() {
        Ok(found)
    } else {
        let word = words[i];
        if is_help(word) {
            Err(err(CliErrorKind::DisplayHelp))
        } else if word == "--id"@ {
            if i + 1 >= words.len() || flag_like(words[i + 1]) {
                Err(err(CliErrorKind::InvalidValue))
            } else if found is Some {
                Err(err(CliErrorKind::ArgumentConflict))
            } else if !slot_accepts(Slot::U64, words[i + 1]) {
                Err(err(CliErrorKind::InvalidValue))
            } else {
                scan_id(words, i + 2, Some(u64_of(words[i + 1])))
            }
        } else if crate::text::strip_prefix_spec(word, "--id="@) is Some {
            let value = crate::text::strip_prefix_spec(word, "--id="@)->0;
            if found is Some {
                Err(err(CliErrorKind::ArgumentConflict))
            } else if !slot_accepts(Slot::U64, value) {
                Err(err(CliErrorKind::InvalidValue))
            } else {
                scan_id(words, i + 1, Some(u64_of(value)))
            }
        } else {
            Err(err(CliErrorKind::UnknownArgument))
        }
    }
}

/// The window id given to `focus-window`/`close-window`, or why there is none.
pub open spec fn id_option(words: Seq<Seq<char>>) -> Result<u64, CliError> {
    match scan_id(words, 0, None) {
        Err(e) => Err(e),
        Ok(None) => Err(err(CliErrorKind::MissingRequiredArgument)),
        Ok(Some(id)) => Ok(id),
    }
}

fn parse_id_option(args: &Vec<String>, start: usize) -> (result: Result<u64, CliError>)
    requires
        start <= args.len(),
    ensures
        result == id_option(words_from(args@, start as int)),
{
    let ghost words = words_from(args@, start as int);
    let mut found: Option<u64> = None;
    let mut i = start;
    while i < args.len()
        invariant
            start <= i <= args.len(),
            words == words_from(args@, start as int),
            scan_id(words, 0, None) == scan_id(words, (i - start) as int, found),
        decreases args.len() - i,
    {
        let word = &args[i];
        let k = i - start;
        assert(words[k as int] == word@);
        if is_help_word(word) {
            return Err(error(CliErrorKind::DisplayHelp));
        }
        if eq_lit(word, "--id") {
            if i + 1 >= args.len() {
                return Err(error(CliErrorKind::InvalidValue));
            }
            assert(words[k + 1] == args@[i + 1]@);
            if is_flag_like(&args[i + 1]) {
                return Err(error(CliErrorKind::InvalidValue));
            }
            if found.is_some() {
                return Err(error(CliErrorKind::ArgumentConflict));
            }
            match parse_unsigned(&args[i + 1], u64::MAX) {
                Some(id) => {
                    found = Some(id);
                },
                None => return Err(error(CliErrorKind::InvalidValue)),
            }
            i += 2;
        } else {
            proof {
                reveal_strlit("--id=");
            }
            match crate::text::strip_prefix_lit(word, "--id=", 5) {
                Some(value) => {
                    if found.is_some() {
                        return Err(error(CliErrorKind::ArgumentConflict));
                    }
                    match parse_unsigned(&value, u64::MAX) {
                        Some(id) => {
                            found = Some(id);
                        },
                        None => return Err(error(CliErrorKind::InvalidValue)),
                    }
                    i += 1;
                },
                None => return Err(error(CliErrorKind::UnknownArgument)),
            }
        }
    }
    match found {
        Some(id) => Ok(id),
        None => Err(error(CliErrorKind::MissingRequiredArgument)),
    }
}

/// Views of a word list.
pub open spec fn views(words: Seq<String>) -> Seq<Seq<char>> {
    words.map_values(|word: String| word@)
}

/// Outcome of `action <action> ...`.
pub open spec fn action_outcome(words: Seq<Seq<char>>, result: Result<ParsedAction, CliError>) -> bool {
    match group_head_error(words) {
        Some(e) => result == Err::<ParsedAction, CliError>(e),
        None => {
            let name = words[0];
            let rest = words.drop_first();
            if name == "focus-workspace"@ {
                leaf_outcome(rest, seq![Slot::Text], 1, result,
                    result matches Ok(ParsedAction::Request(IpcCommand::Action(ActionCommand::FocusWorkspace { workspace }))) && workspace@ == rest[0])
            } else if name == "focus-window"@ {
                match id_option(rest) {
                    Err(e) => result == Err::<ParsedAction, CliError>(e),
                    Ok(id) => result == Ok::<ParsedAction, CliError>(ParsedAction::Request(IpcCommand::Action(ActionCommand::FocusWindow { id }))),
                }
            } else if name == "close-window"@ {
                match id_option(rest) {
                    Err(e) => result == Err::<ParsedAction, CliError>(e),
                    Ok(id) => result == Ok::<ParsedAction, CliError>(ParsedAction::Request(IpcCommand::Action(ActionCommand::CloseWindow { id }))),
                }
            } else if name == "spawn"@ {
                if rest.len() == 0 {
                    result == Err::<ParsedAction, CliError>(err(CliErrorKind::MissingRequiredArgument))
                } else if is_help(rest[0]) {
                    result == Err::<ParsedAction, CliError>(err(CliErrorKind::DisplayHelp))
                } else if rest[0] == "--"@ {
                    if rest.len() == 1 {
                        result == Err::<ParsedAction, CliError>(err(CliErrorKind::MissingRequiredArgument))
                    } else {
                        result matches Ok(ParsedAction::Request(IpcCommand::Action(ActionCommand::Spawn { command })))
                            && views(command@) == rest.drop_first()
                    }
                } else {
                    result matches Ok(ParsedAction::Request(IpcCommand::Action(ActionCommand::Spawn { command }))) && views(command@) == rest
                }
            } else if name == "switch-keyboard-layout-next"@ {
                leaf_outcome(rest, Seq::empty(), 0, result,
                    result == Ok::<ParsedAction, CliError>(ParsedAction::Request(IpcCommand::Action(ActionCommand::SwitchKeyboardLayoutNext))))
            } else if name == "switch-keyboard-layout-prev"@ {
                leaf_outcome(rest, Seq::empty(), 0, result,
                    result == Ok::<ParsedAction, CliError>(ParsedAction::Request(IpcCommand::Action(ActionCommand::SwitchKeyboardLayoutPrev))))
            } else if name == "switch-keyboard-layout-name"@ {
                leaf_outcome(rest, seq![Slot::Text], 1, result,
                    result matches Ok(ParsedAction::Request(IpcCommand::Action(ActionCommand::SwitchKeyboardLayoutByName { name }))) && name@ == rest[0])
            } else if name == "switch-keyboard-layout-index"@ {
                leaf_outcome(rest, seq![Slot::Usize], 1, result,
                    result == Ok::<ParsedAction, CliError>(ParsedAction::Request(IpcCommand::Action(ActionCommand::SwitchKeyboardLayoutByIndex { index: usize_of(rest[0]) }))))
            } else if name == "reload-config"@ {
                leaf_outcome(rest, Seq::empty(), 0, result,
                    result == Ok::<ParsedAction, CliError>(ParsedAction::Request(IpcCommand::Action(ActionCommand::ReloadConfig))))
            } else if name == "quit"@ {
                leaf_outcome(rest, Seq::empty(), 0, result,
                    result == Ok::<ParsedAction, CliError>(ParsedAction::Request(IpcCommand::Action(ActionCommand::Quit))))
            } else if name == "power-off-monitors"@ {
                leaf_outcome(rest, Seq::empty(), 0, result,
                    result == Ok::<ParsedAction, CliError>(ParsedAction::Request(IpcCommand::Action(ActionCommand::PowerOffMonitors))))
            } else if name == "power-on-monitors"@ {
                leaf_outcome(rest, Seq::empty(), 0, result,
                    result == Ok::<ParsedAction, CliError>(ParsedAction::Request(IpcCommand::Action(ActionCommand::PowerOnMonitors))))
            } else {
                result == Err::<ParsedAction, CliError>(unknown_subcommand(name))
            }
        },
    }
}

fn copy_words(args: &Vec<String>, start: usize) -> (words: Vec<String>)
    requires
        start <= args.len(),
    ensures
        views(words@) == words_from(args@, start as int),
{
    let mut words: Vec<String> = Vec::new();
    let mut i = start;
    while i < args.len()
        invariant
            start <= i <= args.len(),
            words@.len() == i - start,
            forall|j: int| 0 <= j < words@.len() ==> (#[trigger] words@[j])@ == args@[start + j]@,
        decreases args.len() - i,
    {
        words.push(args[i].clone());
        i += 1;
    }
    assert(views(words@) =~= words_from(args@, start as int));
    words
}

fn no_argument_leaf(args: &Vec<String>, start: usize) -> (result: Option<CliError>)
    requires
        start <= args.len(),
    ensures
        result == leaf_error(words_from(args@, start as int), Seq::empty(), 0),
{
    let slots: Vec<Slot> = Vec::new();
    assert(slots@ =~= Seq::<Slot>::empty());
    leaf_check(args, start, &slots, 0)
}

fn parse_action(args: &Vec<String>, start: usize) -> (result: Result<ParsedAction, CliError>)
    requires
        start <= args.len(),
    ensures
        action_outcome(words_from(args@, start as int), result),
{
    if let Some(e) = group_head(args, start) {
        return Err(e);
    }
    proof {
        lemma_words_from_step(args@, start as int);
    }
    let ghost rest = words_from(args@, start as int + 1);
    let name = &args[start];
    let first = start + 1;
    if eq_lit(name, "focus-workspace") {
        let slots = vec![Slot::Text];
        assert(slots@ =~= seq![Slot::Text]);
        if let Some(e) = leaf_check(args, first, &slots, 1) {
            return Err(e);
        }
        proof {
            lemma_leaf_ok(rest, slots@, 1);
            assert(rest[0] == args@[first as int]@);
        }
        let workspace = args[first].clone();
        return Ok(ParsedAction::Request(IpcCommand::Action(ActionCommand::FocusWorkspace { workspace })));
    }
    if eq_lit(name, "focus-window") || eq_lit(name, "close-window") {
        let id = match parse_id_option(args, first) {
            Ok(id) => id,
            Err(e) => return Err(e),
        };
        let command = if eq_lit(name, "focus-window") {
            ActionCommand::FocusWindow { id }
        } else {
            ActionCommand::CloseWindow { id }
        };
        return Ok(ParsedAction::Request(IpcCommand::Action(command)));
    }
    if eq_lit(name, "spawn") {
        if first >= args.len() {
            return Err(error(CliErrorKind::MissingRequiredArgument));
        }
        proof {
            lemma_words_from_step(args@, first as int);
        }
        if is_help_word(&args[first]) {
            return Err(error(CliErrorKind::DisplayHelp));
        }
        if eq_lit(&args[first], "--") {
            if first + 1 >= args.len() {
                return Err(error(CliErrorKind::MissingRequiredArgument));
            }
            let command = copy_words(args, first + 1);
            return Ok(ParsedAction::Request(IpcCommand::Action(ActionCommand::Spawn { command })));
        }
        let command = copy_words(args, first);
        return Ok(ParsedAction::Request(IpcCommand::Action(ActionCommand::Spawn { command })));
    }
    if eq_lit(name, "switch-keyboard-layout-next") || eq_lit(name, "switch-keyboard-layout-prev") {
        if let Some(e) = no_argument_leaf(args, first) {
            return Err(e);
        }
        let command = if eq_lit(name, "switch-keyboard-layout-next") {
            ActionCommand::SwitchKeyboardLayoutNext
        } else {
            ActionCommand::SwitchKeyboardLayoutPrev
        };
        return Ok(ParsedAction::Request(IpcCommand::Action(command)));
    }
    if eq_lit(name, "switch-keyboard-layout-name") {
        let slots = vec![Slot::Text];
        assert(slots@ =~= seq![Slot::Text]);
        if let Some(e) = leaf_check(args, first, &slots, 1) {
            return Err(e);
        }
        proof {
            lemma_leaf_ok(rest, slots@, 1);
            assert(rest[0] == args@[first as int]@);
        }
        let layout_name = args[first].clone();
        return Ok(ParsedAction::Request(IpcCommand::Action(ActionCommand::SwitchKeyboardLayoutByName { name: layout_name })));
    }
    if eq_lit(name, "switch-keyboard-layout-index") {
        let slots = vec![Slot::Usize];
        assert(slots@ =~= seq![Slot::Usize]);
        if let Some(e) = leaf_check(args, first, &slots, 1) {
            return Err(e);
        }
        proof {
            lemma_leaf_ok(rest, slots@, 1);
            assert(rest[0] == args@[first as int]@);
        }
        let index = usize_at(args, first);
        return Ok(ParsedAction::Request(IpcCommand::Action(ActionCommand::SwitchKeyboardLayoutByIndex { index })));
    }
    if eq_lit(name, "reload-config") || eq_lit(name, "quit") || eq_lit(name, "power-off-monitors") || eq_lit(name, "power-on-monitors") {
        if let Some(e) = no_argument_leaf(args, first) {
            return Err(e);
        }
        let command = if eq_lit(name, "reload-config") {
            ActionCommand::ReloadConfig
        } else if eq_lit(name, "quit") {
            ActionCommand::Quit
        } else if eq_lit(name, "power-off-monitors") {
            ActionCommand::PowerOffMonitors
        } else {
            ActionCommand::PowerOnMonitors
        };
        return Ok(ParsedAction::Request(IpcCommand::Action(command)));
    }
    Err(unknown_subcommand_error(name))
}

/// Subscription topic named by a word.
pub open spec fn topic_spec(word: Seq<char>) -> Option<SubscriptionTopic> {
    if word == "window"@ {
        Some(SubscriptionTopic::Window)
    } else if word == "popup"@ {
        Some(SubscriptionTopic::Popup)
    } else if word == "workspace"@ {
        Some(SubscriptionTopic::Workspace)
    } else if word == "output"@ {
        Some(SubscriptionTopic::Output)
    } else if word == "command"@ {
        Some(SubscriptionTopic::Command)
    } else if word == "config"@ {
        Some(SubscriptionTopic::Config)
    } else if word == "keyboard-layout"@ {
        Some(SubscriptionTopic::KeyboardLayout)
    } else if word == "clipboard"@ {
        Some(SubscriptionTopic::Clipboard)
    } else if word == "primary-selection"@ {
        Some(SubscriptionTopic::PrimarySelection)
    } else if word == "focus"@ {
        Some(SubscriptionTopic::Focus)
    } else if word == "tree"@ {
        Some(SubscriptionTopic::Tree)
    } else if word == "present-audit"@ {
        Some(SubscriptionTopic::PresentAudit)
    } else if word == "all"@ {
        Some(SubscriptionTopic::All)
    } else {
        None
    }
}

fn parse_topic(word: &String) -> (result: Option<SubscriptionTopic>)
    ensures
        result == topic_spec(word@),
{
    if eq_lit(word, "window") {
        Some(SubscriptionTopic::Window)
    } else if eq_lit(word, "popup") {
        Some(SubscriptionTopic::Popup)
    } else if eq_lit(word, "workspace") {
        Some(SubscriptionTopic::Workspace)
    } else if eq_lit(word, "output") {
        Some(SubscriptionTopic::Output)
    } else if eq_lit(word, "command") {
        Some(SubscriptionTopic::Command)
    } else if eq_lit(word, "config") {
        Some(SubscriptionTopic::Config)
    } else if eq_lit(word, "keyboard-layout") {
        Some(SubscriptionTopic::KeyboardLayout)
    } else if eq_lit(word, "clipboard") {
        Some(SubscriptionTopic::Clipboard)
    } else if eq_lit(word, "primary-selection") {
        Some(SubscriptionTopic::PrimarySelection)
    } else if eq_lit(word, "focus") {
        Some(SubscriptionTopic::Focus)
    } else if eq_lit(word, "tree") {
        Some(SubscriptionTopic::Tree)
    } else if eq_lit(word, "present-audit") {
        Some(SubscriptionTopic::PresentAudit)
    } else if eq_lit(word, "all") {
        Some(SubscriptionTopic::All)
    } else {
        None
    }
}

/// Flags gathered from `subscribe` words: help, json, pretty, jsonl, no-payloads, the topic, and
/// the `--event` filters in the order given.
pub type SubscribeFlags = (bool, bool, bool, bool, bool, Option<SubscriptionTopic>, Seq<Seq<char>>);

/// Scans the words of `subscribe` from word `i` on.
pub open spec fn scan_subscribe(words: Seq<Seq<char>>, i: int, flags: SubscribeFlags) -> Result<SubscribeFlags, CliError>
    decreases words.len() - i,
{
    if i < 0 || i >= words.len() {
        Ok(flags)
    } else {
        let word = words[i];
        let (help, json, pretty, jsonl, no_payloads, topic, events) = flags;
        if is_help(word) {
            scan_subscribe(words, i + 1, (true, json, pretty, jsonl, no_payloads, topic, events))
        } else if word == "--json"@ {
            scan_subscribe(words, i + 1, (help, true, pretty, jsonl, no_payloads, topic, events))
        } else if word == "--pretty"@ {
            scan_subscribe(words, i + 1, (help, json, true, jsonl, no_payloads, topic, events))
        } else if word == "--jsonl"@ {
            scan_subscribe(words, i + 1, (help, json, pretty, true, no_payloads, topic, events))
        } else if word == "--no-payloads"@ {
            scan_subscribe(words, i + 1, (help, json, pretty, jsonl, true, topic, events))
        } else if word == "--event"@ {
            if i + 1 >= words.len() || flag_like(words[i + 1]) {
                Err(err(CliErrorKind::InvalidValue))
            } else {
                scan_subscribe(words, i + 2, (help, json, pretty, jsonl, no_payloads, topic, events.push(words[i + 1])))
            }
        } else if crate::text::strip_prefix_spec(word, "--event="@) is Some {
            scan_subscribe(words, i + 1, (help, json, pretty, jsonl, no_payloads, topic,
                events.push(crate::text::strip_prefix_spec(word, "--event="@)->0)))
        } else if flag_like(word) {
            Err(err(CliErrorKind::UnknownArgument))
        } else if topic is Some {
            Err(err(CliErrorKind::UnknownArgument))
        } else if topic_spec(word) is None {
            Err(err(CliErrorKind::InvalidValue))
        } else {
            scan_subscribe(words, i + 1, (help, json, pretty, jsonl, no_payloads, topic_spec(word), events))
        }
    }
}

/// First occurrences of the first `n` words, in order.
pub open spec fn dedup_prefix(words: Seq<Seq<char>>, n: int) -> Seq<Seq<char>>
    decreases n,
{
    if n <= 0 {
        Seq::empty()
    } else {
        let earlier = dedup_prefix(words, n - 1);
        if earlier.contains(words[n - 1]) {
            earlier
        } else {
            earlier.push(words[n - 1])
        }
    }
}

/// The words with repetitions removed, keeping each word's first occurrence in order.
pub open spec fn dedup(words: Seq<Seq<char>>) -> Seq<Seq<char>> {
    dedup_prefix(words, words.len() as int)
}

/// A filter list without repeats comes out of deduplication unchanged.
pub proof fn law_dedup_keeps_distinct_filters(words: Seq<Seq<char>>, n: int)
    requires
        0 <= n <= words.len(),
        words.no_duplicates(),
    ensures
        dedup_prefix(words, n) == words.take(n),
    decreases n,
{
    if n > 0 {
        law_dedup_keeps_distinct_filters(words, n - 1);
        let earlier = dedup_prefix(words, n - 1);
        if earlier.contains(words[n - 1]) {
            let k = choose|k: int| 0 <= k < earlier.len() && earlier[k] == words[n - 1];
            assert(words.take(n - 1)[k] == words[k]);
            assert(false);
        }
        assert(earlier.push(words[n - 1]) =~= words.take(n));
    } else {
        assert(words.take(0) =~= Seq::<Seq<char>>::empty());
    }
}

/// Deduplicating twice is deduplicating once, and the result is never longer than the list.
pub proof fn law_dedup_is_idempotent(words: Seq<Seq<char>>)
    ensures
        dedup(dedup(words)) == dedup(words),
        dedup(words).len() <= words.len(),
{
    law_dedup_keeps_each_filter_once(words, words.len() as int);
    let once = dedup(words);
    law_dedup_keeps_distinct_filters(once, once.len() as int);
    assert(once.take(once.len() as int) =~= once);
    lemma_dedup_prefix_len(words, words.len() as int);
}

proof fn lemma_dedup_prefix_len(words: Seq<Seq<char>>, n: int)
    requires
        0 <= n <= words.len(),
    ensures
        dedup_prefix(words, n).len() <= n,
    decreases n,
{
    if n > 0 {
        lemma_dedup_prefix_len(words, n - 1);
    }
}

/// Removes duplicate `--event` filters while preserving the order of first occurrence.
pub fn dedupe_events(events: Vec<String>) -> (deduped: Vec<String>)
    ensures
        views(deduped@) == dedup(views(events@)),
{
    let ghost source = views(events@);
    let mut deduped: Vec<String> = Vec::new();
    let mut i: usize = 0;
    while i < events.len()
        invariant
            i <= events.len(),
            source == views(events@),
            views(deduped@) == dedup_prefix(source, i as int),
        decreases events.len() - i,
    {
        let event = &events[i];
        let mut present = false;
        let mut k: usize = 0;
        while k < deduped.len()
            invariant
                k <= deduped.len(),
                present == exists|j: int| 0 <= j < k && (#[trigger] deduped@[j])@ == event@,
            decreases deduped.len() - k,
        {
            if deduped[k] == *event {
                present = true;
            }
            k += 1;
        }
        proof {
            assert(source[i as int] == event@);
            let d = views(deduped@);
            if present {
                let j = choose|j: int| 0 <= j < deduped@.len() && (#[trigger] deduped@[j])@ == event@;
                assert(d[j] == event@);
            } else {
                assert forall|j: int| 0 <= j < d.len() implies d[j] != event@ by {
                    assert(d[j] == deduped@[j]@);
                }
            }
        }
        if !present {
            deduped.push(event.clone());
            proof {
                assert(views(deduped@) =~= dedup_prefix(source, i as int).push(source[i as int]));
            }
        }
        i += 1;
    }
    deduped
}

/// The deduplicated filter list holds each filter once, exactly the filters that were given.
pub proof fn law_dedup_keeps_each_filter_once(words: Seq<Seq<char>>, n: int)
    requires
        0 <= n <= words.len(),
    ensures
        dedup_prefix(words, n).no_duplicates(),
        forall|w: Seq<char>| dedup_prefix(words, n).contains(w) <==> words.take(n).contains(w),
    decreases n,
{
    if n > 0 {
        law_dedup_keeps_each_filter_once(words, n - 1);
        let earlier = dedup_prefix(words, n - 1);
        assert forall|w: Seq<char>| dedup_prefix(words, n).contains(w) <==> words.take(n).contains(w) by {
            assert(words.take(n) == words.take(n - 1).push(words[n - 1]));
            if dedup_prefix(words, n).contains(w) {
                if !earlier.contains(w) {
                    assert(w == words[n - 1]);
                    assert(words.take(n)[n - 1] == w);
                } else {
                    let k = choose|k: int| 0 <= k < earlier.len() && #[trigger] earlier[k] == w;
                    assert(words.take(n - 1).contains(w));
                    let m = choose|m: int| 0 <= m < n - 1 && #[trigger] words.take(n - 1)[m] == w;
                    assert(words.take(n)[m] == w);
                }
            }
            if words.take(n).contains(w) {
                let m = choose|m: int| 0 <= m < n && #[trigger] words.take(n)[m] == w;
                if m < n - 1 {
                    assert(words.take(n - 1)[m] == w);
                    assert(earlier.contains(w));
                    if !earlier.contains(words[n - 1]) {
                        let k = choose|k: int| 0 <= k < earlier.len() && #[trigger] earlier[k] == w;
                        assert(dedup_prefix(words, n)[k] == w);
                    }
                } else {
                    if !earlier.contains(words[n - 1]) {
                        assert(dedup_prefix(words, n)[earlier.len() as int] == w);
                    }
                }
            }
        }
    }
}

/// Outcome of `subscribe ...`.
pub open spec fn subscribe_outcome(words: Seq<Seq<char>>, result: Result<ParsedAction, CliError>) -> bool {
    match scan_subscribe(words, 0, (false, false, false, false, false, None, Seq::empty())) {
        Err(e) => result == Err::<ParsedAction, CliError>(e),
        Ok((help, json, pretty, jsonl, no_payloads, topic, events)) => {
            if pretty && jsonl {
                result == Err::<ParsedAction, CliError>(err(CliErrorKind::ArgumentConflict))
            } else if help {
                result == Ok::<ParsedAction, CliError>(ParsedAction::SubscriptionHelp(
                    if json { HelpOutputMode::Json } else { HelpOutputMode::Text },
                ))
            } else if json {
                result == Err::<ParsedAction, CliError>(err(CliErrorKind::UnknownArgument))
            } else if topic is None {
                result == Err::<ParsedAction, CliError>(err(CliErrorKind::MissingRequiredArgument))
            } else {
                result matches Ok(ParsedAction::Subscribe(command))
                    && command.subscription.topic == topic->0
                    && command.subscription.include_payloads == !no_payloads
                    && views(command.subscription.events@) == dedup(events)
                    && command.output_mode == if jsonl { SubscriptionOutputMode::Jsonl } else { SubscriptionOutputMode::Pretty }
            }
        },
    }
}

fn parse_subscribe(args: &Vec<String>, start: usize) -> (result: Result<ParsedAction, CliError>)
    requires
        start <= args.len(),
    ensures
        subscribe_outcome(words_from(args@, start as int), result),
{
    let ghost words = words_from(args@, start as int);
    let mut help = false;
    let mut json = false;
    let mut pretty = false;
    let mut jsonl = false;
    let mut no_payloads = false;
    let mut topic: Option<SubscriptionTopic> = None;
    let mut events: Vec<String> = Vec::new();
    let mut i = start;
    proof {
        assert(views(events@) =~= Seq::<Seq<char>>::empty());
    }
    while i < args.len()
        invariant
            start <= i <= args.len(),
            words == words_from(args@, start as int),
            scan_subscribe(words, 0, (false, false, false, false, false, None, Seq::empty()))
                == scan_subscribe(words, (i - start) as int, (help, json, pretty, jsonl, no_payloads, topic, views(events@))),
        decreases args.len() - i,
    {
        let word = &args[i];
        let k = i - start;
        assert(words[k as int] == word@);
        if is_help_word(word) {
            help = true;
            i += 1;
        } else if eq_lit(word, "--json") {
            json = true;
            i += 1;
        } else if eq_lit(word, "--pretty") {
            pretty = true;
            i += 1;
        } else if eq_lit(word, "--jsonl") {
            jsonl = true;
            i += 1;
        } else if eq_lit(word, "--no-payloads") {
            no_payloads = true;
            i += 1;
        } else if eq_lit(word, "--event") {
            if i + 1 >= args.len() {
                return Err(error(CliErrorKind::InvalidValue));
            }
            assert(words[k + 1] == args@[i + 1]@);
            if is_flag_like(&args[i + 1]) {
                return Err(error(CliErrorKind::InvalidValue));
            }
            let ghost before = views(events@);
            events.push(args[i + 1].clone());
            assert(views(events@) =~= before.push(words[k + 1]));
            i += 2;
        } else {
            proof {
                reveal_strlit("--event=");
            }
            match crate::text::strip_prefix_lit(word, "--event=", 8) {
                Some(value) => {
                    let ghost before = views(events@);
                    events.push(value);
                    assert(views(events@) =~= before.push(crate::text::strip_prefix_spec(word@, "--event="@)->0));
                    i += 1;
                },
                None => {
                    if is_flag_like(word) {
                        return Err(error(CliErrorKind::UnknownArgument));
                    }
                    if topic.is_some() {
                        return Err(error(CliErrorKind::UnknownArgument));
                    }
                    match parse_topic(word) {
                        Some(parsed) => {
                            topic = Some(parsed);
                        },
                        None => return Err(error(CliErrorKind::InvalidValue)),
                    }
                    i += 1;
                },
            }
        }
    }
    if pretty && jsonl {
        return Err(error(CliErrorKind::ArgumentConflict));
    }
    if help {
        return Ok(ParsedAction::SubscriptionHelp(if json { HelpOutputMode::Json } else { HelpOutputMode::Text }));
    }
    if json {
        return Err(error(CliErrorKind::UnknownArgument));
    }
    let topic = match topic {
        Some(topic) => topic,
        None => return Err(error(CliErrorKind::MissingRequiredArgument)),
    };
    Ok(ParsedAction::Subscribe(SubscriptionCommand {
        subscription: IpcSubscription {
            topic,
            include_payloads: !no_payloads,
            events: dedupe_events(events),
        },
        output_mode: if jsonl { SubscriptionOutputMode::Jsonl } else { SubscriptionOutputMode::Pretty },
    }))
}

/// Scans the words after `help subscribe` from word `i` on: `--json` selects JSON output, a help
/// flag asks for help on the help command, anything else is unknown.
pub open spec fn scan_help_subscribe(words: Seq<Seq<char>>, i: int, json: bool) -> Result<bool, CliError>
    decreases words.len() - i,
{
    if i < 0 || i >= words.len() {
        Ok(json)
    } else if is_help(words[i]) {
        Err(err(CliErrorKind::DisplayHelp))
    } else if words[i] == "--json"@ {
        scan_help_subscribe(words, i + 1, true)
    } else {
        Err(err(CliErrorKind::UnknownArgument))
    }
}

/// Outcome of `help <topic> ...`.
pub open spec fn help_outcome(words: Seq<Seq<char>>, result: Result<ParsedAction, CliError>) -> bool {
    match group_head_error(words) {
        Some(e) => result == Err::<ParsedAction, CliError>(e),
        None => if words[0] == "subscribe"@ {
            match scan_help_subscribe(words.drop_first(), 0, false) {
                Err(e) => result == Err::<ParsedAction, CliError>(e),
                Ok(json) => result == Ok::<ParsedAction, CliError>(ParsedAction::SubscriptionHelp(
                    if json { HelpOutputMode::Json } else { HelpOutputMode::Text },
                )),
            }
        } else {
            result == Err::<ParsedAction, CliError>(unknown_subcommand(words[0]))
        },
    }
}

fn parse_help(args: &Vec<String>, start: usize) -> (result: Result<ParsedAction, CliError>)
    requires
        start <= args.len(),
    ensures
        help_outcome(words_from(args@, start as int), result),
{
    if let Some(e) = group_head(args, start) {
        return Err(e);
    }
    proof {
        lemma_words_from_step(args@, start as int);
    }
    if !eq_lit(&args[start], "subscribe") {
        return Err(unknown_subcommand_error(&args[start]));
    }
    let ghost rest = words_from(args@, start as int + 1);
    let mut json = false;
    let mut i = start + 1;
    while i < args.len()
        invariant
            start + 1 <= i <= args.len(),
            rest == words_from(args@, start as int + 1),
            group_head_error(words_from(args@, start as int)) is None,
            words_from(args@, start as int)[0] == "subscribe"@,
            words_from(args@, start as int).drop_first() == rest,
            scan_help_subscribe(rest, 0, false) == scan_help_subscribe(rest, (i - start - 1) as int, json),
        decreases args.len() - i,
    {
        assert(rest[(i - start - 1) as int] == args@[i as int]@);
        if is_help_word(&args[i]) {
            return Err(error(CliErrorKind::DisplayHelp));
        }
        if !eq_lit(&args[i], "--json") {
            return Err(error(CliErrorKind::UnknownArgument));
        }
        json = true;
        i += 1;
    }
    Ok(ParsedAction::SubscriptionHelp(if json { HelpOutputMode::Json } else { HelpOutputMode::Text }))
}

/// Query named by a hidden compatibility alias at the top level.
pub open spec fn alias_target(word: Seq<char>) -> Option<QueryCommand> {
    if word == "get_tree"@ {
        Some(QueryCommand::GetTree)
    } else if word == "get_outputs"@ {
        Some(QueryCommand::GetOutputs)
    } else if word == "get_workspaces"@ {
        Some(QueryCommand::GetWorkspaces)
    } else if word == "get_windows"@ {
        Some(QueryCommand::GetWindows)
    } else if word == "get_commands"@ {
        Some(QueryCommand::GetCommands)
    } else if word == "get_config"@ {
        Some(QueryCommand::GetConfig)
    } else if word == "get_keyboard_layouts"@ {
        Some(QueryCommand::GetKeyboardLayouts)
    } else if word == "get_clipboard"@ {
        Some(QueryCommand::GetClipboard)
    } else if word == "get_primary_selection"@ {
        Some(QueryCommand::GetPrimarySelection)
    } else {
        None
    }
}

fn alias_target_of(word: &String) -> (result: Option<QueryCommand>)
    ensures
        result == alias_target(word@),
{
    if eq_lit(word, "get_tree") {
        Some(QueryCommand::GetTree)
    } else if eq_lit(word, "get_outputs") {
        Some(QueryCommand::GetOutputs)
    } else if eq_lit(word, "get_workspaces") {
        Some(QueryCommand::GetWorkspaces)
    } else if eq_lit(word, "get_windows") {
        Some(QueryCommand::GetWindows)
    } else if eq_lit(word, "get_commands") {
        Some(QueryCommand::GetCommands)
    } else if eq_lit(word, "get_config") {
        Some(QueryCommand::GetConfig)
    } else if eq_lit(word, "get_keyboard_layouts") {
        Some(QueryCommand::GetKeyboardLayouts)
    } else if eq_lit(word, "get_clipboard") {
        Some(QueryCommand::GetClipboard)
    } else if eq_lit(word, "get_primary_selection") {
        Some(QueryCommand::GetPrimarySelection)
    } else {
        None
    }
}

/// Words joined by single spaces.
pub open spec fn join_words(words: Seq<Seq<char>>) -> Seq<char>
    decreases words.len(),
{
    if words.len() == 0 {
        Seq::empty()
    } else if words.len() == 1 {
        words[0]
    } else {
        join_words(words.drop_last()) + " "@ + words.last()
    }
}

fn join_args(args: &Vec<String>, start: usize) -> (line: String)
    requires
        start <= args.len(),
    ensures
        line@ == join_words(words_from(args@, start as int)),
{
    let mut line = String::new();
    let mut i = start;
    while i < args.len()
        invariant
            start <= i <= args.len(),
            line@ == join_words(words_from(args@.subrange(0, i as int), start as int)),
        decreases args.len() - i,
    {
        let ghost before = words_from(args@.subrange(0, i as int), start as int);
        let ghost after = words_from(args@.subrange(0, i + 1), start as int);
        assert(after.drop_last() =~= before);
        assert(after.last() == args@[i as int]@);
        if i > start {
            line.append(" ");
        } else {
            assert(before.len() == 0);
            assert(line@ =~= Seq::<char>::empty());
        }
        line.append(args[i].as_str());
        i += 1;
    }
    proof {
        assert(args@.subrange(0, i as int) =~= args@);
    }
    line
}

/// Outcome of the whole argument list (`args[0]` is the program name).
pub open spec fn parse_outcome(args: Seq<Seq<char>>, result: Result<ParsedAction, CliError>) -> bool {
    if args.len() < 2 {
        result == Err::<ParsedAction, CliError>(err(CliErrorKind::MissingSubcommand))
    } else {
        let command = args[1];
        let rest = args.subrange(2, args.len() as int);
        if is_help(command) {
            result == Err::<ParsedAction, CliError>(err(CliErrorKind::DisplayHelp))
        } else if command == "query"@ {
            query_outcome(rest, result)
        } else if command == "window"@ {
            window_outcome(rest, result)
        } else if command == "popup"@ {
            popup_outcome(rest, result)
        } else if command == "workspace"@ {
            workspace_outcome(rest, result)
        } else if command == "output"@ {
            output_outcome(rest, result)
        } else if command == "action"@ {
            action_outcome(rest, result)
        } else if command == "completion"@ {
            leaf_outcome(rest, seq![Slot::Shell], 1, result,
                result == Ok::<ParsedAction, CliError>(ParsedAction::Completion(shell_spec(rest[0])->0)))
        } else if command == "subscribe"@ {
            subscribe_outcome(rest, result)
        } else if command == "help"@ {
            help_outcome(rest, result)
        } else if alias_target(command) is Some {
            leaf_outcome(rest, Seq::empty(), 0, result,
                result == Ok::<ParsedAction, CliError>(ParsedAction::Request(IpcCommand::Query(alias_target(command)->0))))
        } else if flag_like(command) {
            result == Err::<ParsedAction, CliError>(err(CliErrorKind::UnknownArgument))
        } else {
            result matches Ok(ParsedAction::Request(IpcCommand::Raw(line)))
                && line@ == join_words(args.subrange(1, args.len() as int))
        }
    }
}

/// Whether `alias` is the hidden top-level alias of the `query` subcommand `sub`.
pub open spec fn query_alias_pair(sub: Seq<char>, alias: Seq<char>) -> bool {
    (sub == "tree"@ && alias == "get_tree"@) ||
    (sub == "outputs"@ && alias == "get_outputs"@) ||
    (sub == "workspaces"@ && alias == "get_workspaces"@) ||
    (sub == "windows"@ && alias == "get_windows"@) ||
    (sub == "commands"@ && alias == "get_commands"@) ||
    (sub == "config"@ && alias == "get_config"@) ||
    (sub == "keyboard-layouts"@ && alias == "get_keyboard_layouts"@) ||
    (sub == "clipboard"@ && alias == "get_clipboard"@) ||
    (sub == "primary-selection"@ && alias == "get_primary_selection"@)
}

/// The hidden `get_*` aliases parse exactly as the `query` subcommands they stand for: both
/// give the same query request.
pub proof fn law_query_aliases_match_query_subcommands(
    program: Seq<char>,
    sub: Seq<char>,
    alias: Seq<char>,
    result: Result<ParsedAction, CliError>,
)
    requires
        query_alias_pair(sub, alias),
    ensures
        query_target(sub) is Some,
        parse_outcome(seq![program, "query"@, sub], result) <==> result == Ok::<ParsedAction, CliError>(
            ParsedAction::Request(IpcCommand::Query(query_target(sub)->0)),
        ),
        parse_outcome(seq![program, alias], result) <==> result == Ok::<ParsedAction, CliError>(
            ParsedAction::Request(IpcCommand::Query(query_target(sub)->0)),
        ),
{
    reveal_strlit("-h");
    reveal_strlit("--help");
    reveal_strlit("query");
    reveal_strlit("window");
    reveal_strlit("popup");
    reveal_strlit("workspace");
    reveal_strlit("output");
    reveal_strlit("action");
    reveal_strlit("completion");
    reveal_strlit("subscribe");
    reveal_strlit("help");
    reveal_strlit("tree");
    reveal_strlit("outputs");
    reveal_strlit("workspaces");
    reveal_strlit("windows");
    reveal_strlit("keyboard-layouts");
    reveal_strlit("commands");
    reveal_strlit("config");
    reveal_strlit("clipboard");
    reveal_strlit("primary-selection");
    reveal_strlit("present-audit");
    reveal_strlit("get_tree");
    reveal_strlit("get_outputs");
    reveal_strlit("get_workspaces");
    reveal_strlit("get_windows");
    reveal_strlit("get_commands");
    reveal_strlit("get_config");
    reveal_strlit("get_keyboard_layouts");
    reveal_strlit("get_clipboard");
    reveal_strlit("get_primary_selection");
    let query_args = seq![program, "query"@, sub];
    let alias_args = seq![program, alias];
    assert(query_args[1] == "query"@);
    assert(query_args.subrange(2, 3) =~= seq![sub]);
    assert(seq![sub].drop_first() =~= Seq::<Seq<char>>::empty());
    assert(alias_args[1] == alias);
    assert(alias_args.subrange(2, 2) =~= Seq::<Seq<char>>::empty());
    assert(alias.len() > 0 && alias[0] == 'g');
    assert("-h"@[0] != 'g' && "--help"@[0] != 'g' && "query"@[0] != 'g' && "window"@[0] != 'g');
    assert("popup"@[0] != 'g' && "workspace"@[0] != 'g' && "output"@[0] != 'g' && "action"@[0] != 'g');
    assert("completion"@[0] != 'g' && "subscribe"@[0] != 'g' && "help"@[0] != 'g');
    assert(!is_help(alias));
    assert(alias != "query"@ && alias != "window"@ && alias != "popup"@ && alias != "workspace"@);
    assert(alias != "output"@ && alias != "action"@ && alias != "completion"@);
    assert(alias != "subscribe"@ && alias != "help"@);
    if sub == "tree"@ && alias == "get_tree"@ {
        assert(alias.len() != "get_outputs"@.len() && alias.len() != "get_workspaces"@.len() && alias.len() != "get_windows"@.len() && alias.len() != "get_commands"@.len() && alias.len() != "get_config"@.len() && alias.len() != "get_keyboard_layouts"@.len() && alias.len() != "get_clipboard"@.len() && alias.len() != "get_primary_selection"@.len());
        assert(sub.len() != "outputs"@.len() && sub.len() != "workspaces"@.len() && sub.len() != "windows"@.len() && sub.len() != "keyboard-layouts"@.len() && sub.len() != "commands"@.len() && sub.len() != "config"@.len() && sub.len() != "clipboard"@.len() && sub.len() != "primary-selection"@.len() && sub.len() != "present-audit"@.len());
        assert(alias_target(alias) == Some(QueryCommand::GetTree));
        assert(query_target(sub) == Some(QueryCommand::GetTree));
    } else if sub == "outputs"@ && alias == "get_outputs"@ {
        assert(alias.len() != "get_tree"@.len() && alias.len() != "get_workspaces"@.len() && alias[4] != "get_windows"@[4] && alias.len() != "get_commands"@.len() && alias.len() != "get_config"@.len() && alias.len() != "get_keyboard_layouts"@.len() && alias.len() != "get_clipboard"@.len() && alias.len() != "get_primary_selection"@.len());
        assert(sub.len() != "tree"@.len() && sub.len() != "workspaces"@.len() && sub[0] != "windows"@[0] && sub.len() != "keyboard-layouts"@.len() && sub.len() != "commands"@.len() && sub.len() != "config"@.len() && sub.len() != "clipboard"@.len() && sub.len() != "primary-selection"@.len() && sub.len() != "present-audit"@.len());
        assert(alias_target(alias) == Some(QueryCommand::GetOutputs));
        assert(query_target(sub) == Some(QueryCommand::GetOutputs));
    } else if sub == "workspaces"@ && alias == "get_workspaces"@ {
        assert(alias.len() != "get_tree"@.len() && alias.len() != "get_outputs"@.len() && alias.len() != "get_windows"@.len() && alias.len() != "get_commands"@.len() && alias.len() != "get_config"@.len() && alias.len() != "get_keyboard_layouts"@.len() && alias.len() != "get_clipboard"@.len() && alias.len() != "get_primary_selection"@.len());
        assert(sub.len() != "tree"@.len() && sub.len() != "outputs"@.len() && sub.len() != "windows"@.len() && sub.len() != "keyboard-layouts"@.len() && sub.len() != "commands"@.len() && sub.len() != "config"@.len() && sub.len() != "clipboard"@.len() && sub.len() != "primary-selection"@.len() && sub.len() != "present-audit"@.len());
        assert(alias_target(alias) == Some(QueryCommand::GetWorkspaces));
        assert(query_target(sub) == Some(QueryCommand::GetWorkspaces));
    } else if sub == "windows"@ && alias == "get_windows"@ {
        assert(alias.len() != "get_tree"@.len() && alias[4] != "get_outputs"@[4] && alias.len() != "get_workspaces"@.len() && alias.len() != "get_commands"@.len() && alias.len() != "get_config"@.len() && alias.len() != "get_keyboard_layouts"@.len() && alias.len() != "get_clipboard"@.len() && alias.len() != "get_primary_selection"@.len());
        assert(sub.len() != "tree"@.len() && sub[0] != "outputs"@[0] && sub.len() != "workspaces"@.len() && sub.len() != "keyboard-layouts"@.len() && sub.len() != "commands"@.len() && sub.len() != "config"@.len() && sub.len() != "clipboard"@.len() && sub.len() != "primary-selection"@.len() && sub.len() != "present-audit"@.len());
        assert(alias_target(alias) == Some(QueryCommand::GetWindows));
        assert(query_target(sub) == Some(QueryCommand::GetWindows));
    } else if sub == "commands"@ && alias == "get_commands"@ {
        assert(alias.len() != "get_tree"@.len() && alias.len() != "get_outputs"@.len() && alias.len() != "get_workspaces"@.len() && alias.len() != "get_windows"@.len() && alias.len() != "get_config"@.len() && alias.len() != "get_keyboard_layouts"@.len() && alias.len() != "get_clipboard"@.len() && alias.len() != "get_primary_selection"@.len());
        assert(sub.len() != "tree"@.len() && sub.len() != "outputs"@.len() && sub.len() != "workspaces"@.len() && sub.len() != "windows"@.len() && sub.len() != "keyboard-layouts"@.len() && sub.len() != "config"@.len() && sub.len() != "clipboard"@.len() && sub.len() != "primary-selection"@.len() && sub.len() != "present-audit"@.len());
        assert(alias_target(alias) == Some(QueryCommand::GetCommands));
        assert(query_target(sub) == Some(QueryCommand::GetCommands));
    } else if sub == "config"@ && alias == "get_config"@ {
        assert(alias.len() != "get_tree"@.len() && alias.len() != "get_outputs"@.len() && alias.len() != "get_workspaces"@.len() && alias.len() != "get_windows"@.len() && alias.len() != "get_commands"@.len() && alias.len() != "get_keyboard_layouts"@.len() && alias.len() != "get_clipboard"@.len() && alias.len() != "get_primary_selection"@.len());
        assert(sub.len() != "tree"@.len() && sub.len() != "outputs"@.len() && sub.len() != "workspaces"@.len() && sub.len() != "windows"@.len() && sub.len() != "keyboard-layouts"@.len() && sub.len() != "commands"@.len() && sub.len() != "clipboard"@.len() && sub.len() != "primary-selection"@.len() && sub.len() != "present-audit"@.len());
        assert(alias_target(alias) == Some(QueryCommand::GetConfig));
        assert(query_target(sub) == Some(QueryCommand::GetConfig));
    } else if sub == "keyboard-layouts"@ && alias == "get_keyboard_layouts"@ {
        assert(alias.len() != "get_tree"@.len() && alias.len() != "get_outputs"@.len() && alias.len() != "get_workspaces"@.len() && alias.len() != "get_windows"@.len() && alias.len() != "get_commands"@.len() && alias.len() != "get_config"@.len() && alias.len() != "get_clipboard"@.len() && alias.len() != "get_primary_selection"@.len());
        assert(sub.len() != "tree"@.len() && sub.len() != "outputs"@.len() && sub.len() != "workspaces"@.len() && sub.len() != "windows"@.len() && sub.len() != "commands"@.len() && sub.len() != "config"@.len() && sub.len() != "clipboard"@.len() && sub.len() != "primary-selection"@.len() && sub.len() != "present-audit"@.len());
        assert(alias_target(alias) == Some(QueryCommand::GetKeyboardLayouts));
        assert(query_target(sub) == Some(QueryCommand::GetKeyboardLayouts));
    } else if sub == "clipboard"@ && alias == "get_clipboard"@ {
        assert(alias.len() != "get_tree"@.len() && alias.len() != "get_outputs"@.len() && alias.len() != "get_workspaces"@.len() && alias.len() != "get_windows"@.len() && alias.len() != "get_commands"@.len() && alias.len() != "get_config"@.len() && alias.len() != "get_keyboard_layouts"@.len() && alias.len() != "get_primary_selection"@.len());
        assert(sub.len() != "tree"@.len() && sub.len() != "outputs"@.len() && sub.len() != "workspaces"@.len() && sub.len() != "windows"@.len() && sub.len() != "keyboard-layouts"@.len() && sub.len() != "commands"@.len() && sub.len() != "config"@.len() && sub.len() != "primary-selection"@.len() && sub.len() != "present-audit"@.len());
        assert(alias_target(alias) == Some(QueryCommand::GetClipboard));
        assert(query_target(sub) == Some(QueryCommand::GetClipboard));
    } else if sub == "primary-selection"@ && alias == "get_primary_selection"@ {
        assert(alias.len() != "get_tree"@.len() && alias.len() != "get_outputs"@.len() && alias.len() != "get_workspaces"@.len() && alias.len() != "get_windows"@.len() && alias.len() != "get_commands"@.len() && alias.len() != "get_config"@.len() && alias.len() != "get_keyboard_layouts"@.len() && alias.len() != "get_clipboard"@.len());
        assert(sub.len() != "tree"@.len() && sub.len() != "outputs"@.len() && sub.len() != "workspaces"@.len() && sub.len() != "windows"@.len() && sub.len() != "keyboard-layouts"@.len() && sub.len() != "commands"@.len() && sub.len() != "config"@.len() && sub.len() != "clipboard"@.len() && sub.len() != "present-audit"@.len());
        assert(alias_target(alias) == Some(QueryCommand::GetPrimarySelection));
        assert(query_target(sub) == Some(QueryCommand::GetPrimarySelection));
    }
    assert(alias_target(alias) == query_target(sub));
    assert(leaf_error(Seq::<Seq<char>>::empty(), Seq::<Slot>::empty(), 0) is None);
}

/// Turns the client's argument list (program name first) into one action.
///
/// Groups (`query`, `window`, `popup`, `workspace`, `output`, `action`, `help`) take a
/// subcommand; hidden `get_*` aliases map to queries; `subscribe` takes a topic and output flags
/// with repeated `--event` filters deduplicated; any other word is forwarded verbatim as a raw
/// command.
pub fn parse_cli_from(args: &Vec<String>) -> (result: Result<ParsedAction, CliError>)
    ensures
        parse_outcome(views(args@), result),
{
    let ghost all = views(args@);
    if args.len() < 2 {
        return Err(error(CliErrorKind::MissingSubcommand));
    }
    assert(all[1] == args@[1]@);
    proof {
        assert(all.subrange(2, all.len() as int) =~= words_from(args@, 2));
        assert(all.subrange(1, all.len() as int) =~= words_from(args@, 1));
    }
    let command = &args[1];
    if is_help_word(command) {
        return Err(error(CliErrorKind::DisplayHelp));
    }
    if eq_lit(command, "query") {
        return parse_query(args, 2);
    }
    if eq_lit(command, "window") {
        return parse_window(args, 2);
    }
    if eq_lit(command, "popup") {
        return parse_popup(args, 2);
    }
    if eq_lit(command, "workspace") {
        return parse_workspace(args, 2);
    }
    if eq_lit(command, "output") {
        return parse_output(args, 2);
    }
    if eq_lit(command, "action") {
        return parse_action(args, 2);
    }
    if eq_lit(command, "completion") {
        let slots = vec![Slot::Shell];
        assert(slots@ =~= seq![Slot::Shell]);
        if let Some(e) = leaf_check(args, 2, &slots, 1) {
            return Err(e);
        }
        proof {
            lemma_leaf_ok(words_from(args@, 2), slots@, 1);
            assert(words_from(args@, 2)[0] == args@[2]@);
        }
        let shell = match parse_shell(&args[2]) {
            Some(shell) => shell,
            None => CompletionShellArg::Bash,
        };
        return Ok(ParsedAction::Completion(shell));
    }
    if eq_lit(command, "subscribe") {
        return parse_subscribe(args, 2);
    }
    if eq_lit(command, "help") {
        return parse_help(args, 2);
    }
    if let Some(query) = alias_target_of(command) {
        if let Some(e) = no_argument_leaf(args, 2) {
            return Err(e);
        }
        return Ok(ParsedAction::Request(IpcCommand::Query(query)));
    }
    if is_flag_like(command) {
        return Err(error(CliErrorKind::UnknownArgument));
    }
    Ok(ParsedAction::Request(IpcCommand::Raw(join_args(args, 1))))
}

} // verus!
