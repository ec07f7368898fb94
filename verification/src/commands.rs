//! The command table and router: maps a discrete input event to the
//! command the daemon must issue, and resolves each event to an action.
//!
//! The table is built once from the configuration records, in order. A
//! record is recognized when its gesture name and finger count form one of
//! the six valid combinations: the four swipe directions each require a
//! finger count, the two scroll directions require none. Unrecognized
//! records are dropped (the caller can warn about them via
//! [`mapping_key`]); configuration errors never abort startup. When two
//! recognized records name the same event, the first one wins: the table
//! keeps the earliest entry and ignores later duplicates, so precedence is
//! deterministic and follows file order.

use vstd::prelude::*;
use vstd::string::StringExecFns;

use crate::config::{Mapping, TomlConfig};

verus! {

/// A discrete input event produced by the swipe classifier or by the
/// scroll-wheel decoder, and consumed once by the command router.
///
/// Swipe variants carry the finger count that was last observed while the
/// gesture was in progress; scroll variants carry nothing.
#[derive(Clone, Copy, Debug, Eq, Hash, PartialEq, Structural)]
pub enum InputCommand {
    SwipeUp(i32),
    SwipeDown(i32),
    SwipeLeft(i32),
    SwipeRight(i32),
    ScrollLeft,
    ScrollRight,
}

/// The command a table entry resolves to: the command text and its kind
/// (`"sway"` for a verbatim compositor command, `"builtin"` for a named
/// builtin routine).
#[derive(Debug)]
pub struct OutputCommand {
    pub cmd: String,
    pub cmd_type: String,
}

/// Compares two string slices by contents.
fn str_eq(a: &str, b: &str) -> (r: bool)
    ensures
        r == (a@ == b@),
{
    let x: String = a.to_owned();
    let y: String = b.to_owned();
    x.eq(&y)
}

/// The event a configuration record maps, when its gesture name and
/// finger count form one of the six recognized combinations.
pub open spec fn spec_mapping_key(m: Mapping) -> Option<InputCommand> {
    if m.gesture@ == "swipe_left"@ {
        match m.finger_count {
            Some(n) => Some(InputCommand::SwipeLeft(n)),
            None => None,
        }
    } else if m.gesture@ == "swipe_right"@ {
        match m.finger_count {
            Some(n) => Some(InputCommand::SwipeRight(n)),
            None => None,
        }
    } else if m.gesture@ == "swipe_up"@ {
        match m.finger_count {
            Some(n) => Some(InputCommand::SwipeUp(n)),
            None => None,
        }
    } else if m.gesture@ == "swipe_down"@ {
        match m.finger_count {
            Some(n) => Some(InputCommand::SwipeDown(n)),
            None => None,
        }
    } else if m.gesture@ == "scrollwheel_left"@ {
        match m.finger_count {
            None => Some(InputCommand::ScrollLeft),
            Some(_) => None,
        }
    } else if m.gesture@ == "scrollwheel_right"@ {
        match m.finger_count {
            None => Some(InputCommand::ScrollRight),
            Some(_) => None,
        }
    } else {
        None
    }
}

/// Resolves a configuration record to the event it maps, or `None` when
/// the record is not one of the six recognized combinations.
pub fn mapping_key(m: &Mapping) -> (r: Option<InputCommand>)
    ensures
        r == spec_mapping_key(*m),
{
    if str_eq(m.gesture.as_str(), "swipe_left") {
        match m.finger_count {
            Some(n) => Some(InputCommand::SwipeLeft(n)),
            None => None,
        }
    } else if str_eq(m.gesture.as_str(), "swipe_right") {
        match m.finger_count {
            Some(n) => Some(InputCommand::SwipeRight(n)),
            None => None,
        }
    } else if str_eq(m.gesture.as_str(), "swipe_up") {
        match m.finger_count {
            Some(n) => Some(InputCommand::SwipeUp(n)),
            None => None,
        }
    } else if str_eq(m.gesture.as_str(), "swipe_down") {
        match m.finger_count {
            Some(n) => Some(InputCommand::SwipeDown(n)),
            None => None,
        }
    } else if str_eq(m.gesture.as_str(), "scrollwheel_left") {
        match m.finger_count {
            None => Some(InputCommand::ScrollLeft),
            Some(_) => None,
        }
    } else if str_eq(m.gesture.as_str(), "scrollwheel_right") {
        match m.finger_count {
            None => Some(InputCommand::ScrollRight),
            Some(_) => None,
        }
    } else {
        None
    }
}

/// The record that governs event `e` under first-wins precedence: the
/// earliest record in configuration order whose key is `e`.
pub open spec fn spec_config_lookup(ms: Seq<Mapping>, e: InputCommand) -> Option<Mapping>
    decreases ms.len(),
{
    if ms.len() == 0 {
        None
    } else if spec_mapping_key(ms[0]) == Some(e) {
        Some(ms[0])
    } else {
        spec_config_lookup(ms.drop_first(), e)
    }
}

/// The table entry for event `e`: the first entry whose key is `e`.
pub open spec fn spec_entries_lookup(
    es: Seq<(InputCommand, OutputCommand)>,
    e: InputCommand,
) -> Option<OutputCommand>
    decreases es.len(),
{
    if es.len() == 0 {
        None
    } else if es[0].0 == e {
        Some(es[0].1)
    } else {
        spec_entries_lookup(es.drop_first(), e)
    }
}

/// Appending a record changes a lookup only where every earlier record
/// missed, and then only for the appended record's own key.
proof fn lemma_config_lookup_push(ms: Seq<Mapping>, m: Mapping, e: InputCommand)
    ensures
        spec_config_lookup(ms.push(m), e) == (match spec_config_lookup(ms, e) {
            Some(x) => Some(x),
            None => if spec_mapping_key(m) == Some(e) {
                Some(m)
            } else {
                None
            },
        }),
    decreases ms.len(),
{
    if ms.len() == 0 {
        assert(ms.push(m).drop_first() =~= ms);
    } else {
        assert(ms.push(m).drop_first() =~= ms.drop_first().push(m));
        lemma_config_lookup_push(ms.drop_first(), m, e);
    }
}

/// The table-side twin of [`lemma_config_lookup_push`].
proof fn lemma_entries_lookup_push(
    es: Seq<(InputCommand, OutputCommand)>,
    entry: (InputCommand, OutputCommand),
    e: InputCommand,
)
    ensures
        spec_entries_lookup(es.push(entry), e) == (match spec_entries_lookup(es, e) {
            Some(x) => Some(x),
            None => if entry.0 == e {
                Some(entry.1)
            } else {
                None
            },
        }),
    decreases es.len(),
{
    if es.len() == 0 {
        assert(es.push(entry).drop_first() =~= es);
    } else {
        assert(es.push(entry).drop_first() =~= es.drop_first().push(entry));
        lemma_entries_lookup_push(es.drop_first(), entry, e);
    }
}

/// A lookup hits exactly when some entry carries the key.
proof fn lemma_entries_lookup_exists(es: Seq<(InputCommand, OutputCommand)>, e: InputCommand)
    ensures
        (spec_entries_lookup(es, e) is Some) <==> exists|j: int|
            0 <= j < es.len() && es[j].0 == e,
    decreases es.len(),
{
    if es.len() == 0 {
    } else if es[0].0 == e {
    } else {
        lemma_entries_lookup_exists(es.drop_first(), e);
        if spec_entries_lookup(es.drop_first(), e) is Some {
            let j = choose|j: int| 0 <= j < es.drop_first().len() && es.drop_first()[j].0 == e;
            assert(es[j + 1].0 == e);
        }
        if exists|j: int| 0 <= j < es.len() && es[j].0 == e {
            let j = choose|j: int| 0 <= j < es.len() && es[j].0 == e;
            assert(es.drop_first()[j - 1].0 == e);
        }
    }
}

/// A lookup returns the entry at the first index that carries the key.
proof fn lemma_entries_lookup_index(
    es: Seq<(InputCommand, OutputCommand)>,
    e: InputCommand,
    j: int,
)
    requires
        0 <= j < es.len(),
        es[j].0 == e,
        forall|jj: int| 0 <= jj < j ==> es[jj].0 != e,
    ensures
        spec_entries_lookup(es, e) == Some(es[j].1),
    decreases j,
{
    if j == 0 {
    } else {
        assert(forall|jj: int|
            0 <= jj < j - 1 ==> es.drop_first()[jj].0 == es[jj + 1].0 && es[jj + 1].0 != e);
        lemma_entries_lookup_index(es.drop_first(), e, j - 1);
    }
}

/// A table entry and the configuration record it came from agree on the
/// command text and the command kind.
pub open spec fn spec_lookup_agrees(o: Option<OutputCommand>, m: Option<Mapping>) -> bool {
    match (o, m) {
        (None, None) => true,
        (Some(o), Some(m)) => o.cmd@ == m.cmd@ && o.cmd_type@ == m.cmd_type@,
        _ => false,
    }
}

/// The command table plus the dry-run flag: everything the router needs
/// to resolve an event. Built once at startup, never mutated afterwards.
#[derive(Debug)]
pub struct CommandDesc {
    pub dry_run: bool,
    pub mappings: Vec<(InputCommand, OutputCommand)>,
}

impl CommandDesc {
    /// The table entry governing event `e`.
    pub open spec fn spec_lookup(self, e: InputCommand) -> Option<OutputCommand> {
        spec_entries_lookup(self.mappings@, e)
    }

    /// The table answers every event exactly as the configuration does
    /// under first-wins precedence.
    pub open spec fn table_matches_config(self, ms: Seq<Mapping>) -> bool {
        forall|e: InputCommand|
            spec_lookup_agrees(
                #[trigger] spec_entries_lookup(self.mappings@, e),
                spec_config_lookup(ms, e),
            )
    }

    /// Builds the table from the configuration, in order, keeping the
    /// first recognized record for each event and dropping unrecognized
    /// records and later duplicates.
    pub fn new(dry_run: bool, config: TomlConfig) -> (desc: CommandDesc)
        ensures
            desc.dry_run == dry_run,
            desc.table_matches_config(config.mappings@),
    {
        let ms = &config.mappings;
        let mut entries: Vec<(InputCommand, OutputCommand)> = Vec::new();
        let ghost all = ms@;
        let mut i: usize = 0;
        while i < ms.len()
            invariant
                0 <= i <= all.len(),
                ms@ == all,
                forall|e: InputCommand|
                    spec_lookup_agrees(
                        #[trigger] spec_entries_lookup(entries@, e),
                        spec_config_lookup(all.take(i as int), e),
                    ),
            decreases all.len() - i,
        {
            let m = &ms[i];
            let key = mapping_key(m);
            let ghost old_entries = entries@;
            match key {
                None => {},
                Some(k) => {
                    if !table_contains_key(&entries, k) {
                        let out = OutputCommand { cmd: m.cmd.clone(), cmd_type: m.cmd_type.clone() };
                        entries.push((k, out));
                    }
                },
            }
            proof {
                assert(all.take(i + 1 as int) =~= all.take(i as int).push(all[i as int]));
                assert forall|e: InputCommand|
                    spec_lookup_agrees(
                        #[trigger] spec_entries_lookup(entries@, e),
                        spec_config_lookup(all.take(i + 1 as int), e),
                    ) by {
                    lemma_config_lookup_push(all.take(i as int), all[i as int], e);
                    if entries@ != old_entries {
                        lemma_entries_lookup_push(old_entries, entries@.last(), e);
                    }
                }
            }
            i = i + 1;
        }
        proof {
            assert(all.take(all.len() as int) =~= all);
        }
        CommandDesc { dry_run, mappings: entries }
    }

    /// Looks an event up in the table.
    pub fn lookup(&self, cmd: &InputCommand) -> (r: Option<&OutputCommand>)
        ensures
            match r {
                Some(o) => self.spec_lookup(*cmd) == Some(*o),
                None => self.spec_lookup(*cmd) is None,
            },
    {
        let mut j: usize = 0;
        while j < self.mappings.len()
            invariant
                0 <= j <= self.mappings@.len(),
                forall|jj: int| 0 <= jj < j ==> self.mappings@[jj].0 != *cmd,
            decreases self.mappings@.len() - j,
        {
            let entry = &self.mappings[j];
            if entry.0 == *cmd {
                proof {
                    lemma_entries_lookup_index(self.mappings@, *cmd, j as int);
                }
                return Some(&entry.1);
            }
            j = j + 1;
        }
        proof {
            lemma_entries_lookup_exists(self.mappings@, *cmd);
        }
        None
    }
}

/// The action the router resolves an event to. The router itself has no
/// side effects; the event loop performs the action: it logs the first
/// two variants, sends `SwayCommand` to the compositor verbatim, runs the
/// builtin routine for `WorkspaceNew`, and warns on the unsupported ones.
#[derive(Debug)]
pub enum RouteAction {
    /// The event has no mapping. A normal outcome, not a fault: the
    /// caller logs it and goes on.
    NoMapping,
    /// Dry-run mode: the command that would have run, to be logged only.
    DryRun { cmd: String, cmd_type: String },
    /// Send the command text to the compositor verbatim.
    SwayCommand { cmd: String },
    /// Run the builtin routine that switches to the lowest unused
    /// workspace.
    WorkspaceNew,
    /// A builtin command of unknown name: warn, do nothing.
    UnsupportedBuiltin { cmd: String },
    /// A command of unknown kind: warn, do nothing.
    UnsupportedType { cmd_type: String },
}

/// The mathematical image of a [`RouteAction`]: the same variants over
/// character sequences.
pub enum SpecRouteAction {
    NoMapping,
    DryRun { cmd: Seq<char>, cmd_type: Seq<char> },
    SwayCommand { cmd: Seq<char> },
    WorkspaceNew,
    UnsupportedBuiltin { cmd: Seq<char> },
    UnsupportedType { cmd_type: Seq<char> },
}

impl View for RouteAction {
    type V = SpecRouteAction;

    open spec fn view(&self) -> SpecRouteAction {
        match self {
            RouteAction::NoMapping => SpecRouteAction::NoMapping,
            RouteAction::DryRun { cmd, cmd_type } => SpecRouteAction::DryRun {
                cmd: cmd@,
                cmd_type: cmd_type@,
            },
            RouteAction::SwayCommand { cmd } => SpecRouteAction::SwayCommand { cmd: cmd@ },
            RouteAction::WorkspaceNew => SpecRouteAction::WorkspaceNew,
            RouteAction::UnsupportedBuiltin { cmd } => SpecRouteAction::UnsupportedBuiltin {
                cmd: cmd@,
            },
            RouteAction::UnsupportedType { cmd_type } => SpecRouteAction::UnsupportedType {
                cmd_type: cmd_type@,
            },
        }
    }
}

/// The named builtin routines a `"builtin"` table entry can ask for.
#[derive(Clone, Copy, Debug, Eq, PartialEq, Structural)]
pub enum BuiltinCommand {
    /// Switch to the lowest workspace number not currently in use.
    WorkspaceNew,
    /// A name this daemon does not know: warn, do nothing.
    Unsupported,
}

/// The builtin routine a command name resolves to.
pub open spec fn spec_builtin_command(cmd: Seq<char>) -> BuiltinCommand {
    if cmd == "workspace_new"@ {
        BuiltinCommand::WorkspaceNew
    } else {
        BuiltinCommand::Unsupported
    }
}

/// Resolves the name of a builtin command to the routine to run. An
/// unknown name resolves to [`BuiltinCommand::Unsupported`], which the
/// caller warns about and otherwise ignores.
pub fn process_command(cmd: &str) -> (r: BuiltinCommand)
    ensures
        r == spec_builtin_command(cmd@),
{
    if str_eq(cmd, "workspace_new") {
        BuiltinCommand::WorkspaceNew
    } else {
        BuiltinCommand::Unsupported
    }
}

impl CommandDesc {
    /// The action event `e` resolves to: no mapping routes to nothing;
    /// in dry-run mode a mapped event is only reported; otherwise the
    /// entry's kind decides between a verbatim compositor command, a
    /// builtin routine, and the unsupported cases.
    pub open spec fn spec_route(self, e: InputCommand) -> SpecRouteAction {
        match spec_entries_lookup(self.mappings@, e) {
            None => SpecRouteAction::NoMapping,
            Some(o) => if self.dry_run {
                SpecRouteAction::DryRun { cmd: o.cmd@, cmd_type: o.cmd_type@ }
            } else if o.cmd_type@ == "sway"@ {
                SpecRouteAction::SwayCommand { cmd: o.cmd@ }
            } else if o.cmd_type@ == "builtin"@ {
                if o.cmd@ == "workspace_new"@ {
                    SpecRouteAction::WorkspaceNew
                } else {
                    SpecRouteAction::UnsupportedBuiltin { cmd: o.cmd@ }
                }
            } else {
                SpecRouteAction::UnsupportedType { cmd_type: o.cmd_type@ }
            },
        }
    }
}

impl InputCommand {
    /// Resolves this event against the table to the action the event
    /// loop must perform. Pure: the result depends on the event, the
    /// table and the dry-run flag alone.
    pub fn process_command(self, cmd_desc: &CommandDesc) -> (r: RouteAction)
        ensures
            r@ == cmd_desc.spec_route(self),
    {
        let found = cmd_desc.lookup(&self);
        match found {
            None => RouteAction::NoMapping,
            Some(out) => {
                if cmd_desc.dry_run {
                    RouteAction::DryRun { cmd: out.cmd.clone(), cmd_type: out.cmd_type.clone() }
                } else if str_eq(out.cmd_type.as_str(), "sway") {
                    RouteAction::SwayCommand { cmd: out.cmd.clone() }
                } else if str_eq(out.cmd_type.as_str(), "builtin") {
                    match process_command(out.cmd.as_str()) {
                        BuiltinCommand::WorkspaceNew => RouteAction::WorkspaceNew,
                        BuiltinCommand::Unsupported => RouteAction::UnsupportedBuiltin {
                            cmd: out.cmd.clone(),
                        },
                    }
                } else {
                    RouteAction::UnsupportedType { cmd_type: out.cmd_type.clone() }
                }
            },
        }
    }
}

/// Ascending order.
pub open spec fn sorted_i32(s: Seq<i32>) -> bool {
    forall|i: int, j: int| 0 <= i <= j < s.len() ==> s[i] <= s[j]
}

/// Pushing an element extends what a sequence contains by exactly that
/// element.
proof fn lemma_push_contains_i32(s: Seq<i32>, a: i32, w: i32)
    ensures
        s.push(a).contains(w) <==> (s.contains(w) || w == a),
{
    if s.push(a).contains(w) {
        let j = choose|j: int| 0 <= j < s.push(a).len() && s.push(a)[j] == w;
        if j < s.len() {
            assert(s[j] == w);
        }
    }
    if s.contains(w) {
        let j = choose|j: int| 0 <= j < s.len() && s[j] == w;
        assert(s.push(a)[j] == w);
    }
    assert(s.push(a)[s.len() as int] == a);
}

/// Inserting an element extends what a sequence contains by exactly that
/// element, wherever it is inserted.
proof fn lemma_insert_contains_i32(s: Seq<i32>, pos: int, x: i32, w: i32)
    requires
        0 <= pos <= s.len(),
    ensures
        s.insert(pos, x).contains(w) <==> (s.contains(w) || w == x),
{
    s.insert_ensures(pos, x);
    let t = s.insert(pos, x);
    if t.contains(w) {
        let j = choose|j: int| 0 <= j < t.len() && t[j] == w;
        if j < pos {
            assert(s[j] == w);
        } else if j > pos {
            assert(s[j - 1] == w);
        }
    }
    if s.contains(w) {
        let j = choose|j: int| 0 <= j < s.len() && s[j] == w;
        if j < pos {
            assert(t[j] == w);
        } else {
            assert(t[j + 1] == w);
        }
    }
    assert(t[pos] == x);
}

/// Sorts a copy of the workspace numbers ascending, by insertion.
fn sort_workspaces(v: &Vec<i32>) -> (r: Vec<i32>)
    ensures
        sorted_i32(r@),
        r@.len() == v@.len(),
        forall|w: i32| r@.contains(w) <==> v@.contains(w),
{
    let mut out: Vec<i32> = Vec::new();
    let mut i: usize = 0;
    while i < v.len()
        invariant
            0 <= i <= v@.len(),
            out@.len() == i,
            sorted_i32(out@),
            forall|w: i32| out@.contains(w) <==> v@.take(i as int).contains(w),
        decreases v@.len() - i,
    {
        let x = v[i];
        let mut pos: usize = 0;
        while pos < out.len() && out[pos] <= x
            invariant
                0 <= pos <= out@.len(),
                forall|q: int| 0 <= q < pos ==> out@[q] <= x,
            decreases out@.len() - pos,
        {
            pos = pos + 1;
        }
        let ghost pre = out@;
        out.insert(pos, x);
        proof {
            pre.insert_ensures(pos as int, x);
            assert forall|a: int, b: int| 0 <= a <= b < out@.len() implies out@[a] <= out@[b] by {
                if pos < pre.len() {
                    assert(pre[pos as int] > x);
                }
                if a < pos && b > pos {
                    assert(out@[a] == pre[a] && out@[b] == pre[b - 1]);
                }
            }
            assert forall|w: i32| out@.contains(w) <==> v@.take(i + 1 as int).contains(w) by {
                lemma_insert_contains_i32(pre, pos as int, x, w);
                assert(v@.take(i + 1 as int) =~= v@.take(i as int).push(v@[i as int]));
                lemma_push_contains_i32(v@.take(i as int), v@[i as int], w);
            }
        }
        i = i + 1;
    }
    proof {
        assert(v@.take(v@.len() as int) =~= v@);
    }
    out
}

/// The builtin routine behind `workspace_new`: the lowest positive
/// workspace number not currently in use. The caller queries the
/// compositor for the open workspace numbers, hands them here in any
/// order, and switches to the returned number.
///
/// The scan walks a sorted copy and advances the expected number past
/// every element that matches it; elements below the expected number
/// (duplicates, or identifiers smaller than one) cannot disturb it.
pub fn sway_new_workspaces(workspaces: Vec<i32>) -> (target: i32)
    requires
        workspaces@.len() < i32::MAX as int,
    ensures
        1 <= target,
        !workspaces@.contains(target),
        forall|k: i32| 1 <= k < target ==> #[trigger] workspaces@.contains(k),
{
    let sorted = sort_workspaces(&workspaces);
    let mut expected: i32 = 1;
    let mut i: usize = 0;
    while i < sorted.len()
        invariant
            0 <= i <= sorted@.len(),
            sorted@.len() < i32::MAX as int,
            sorted_i32(sorted@),
            forall|w: i32| sorted@.contains(w) <==> workspaces@.contains(w),
            1 <= expected <= i + 1,
            forall|k: i32| 1 <= k < expected ==> #[trigger] sorted@.contains(k),
            forall|j: int| 0 <= j < i ==> sorted@[j] != expected,
        decreases sorted@.len() - i,
    {
        if sorted[i] == expected {
            proof {
                assert(sorted@.contains(sorted@[i as int]));
            }
            expected = expected + 1;
        }
        i = i + 1;
    }
    expected
}

/// The character for one decimal digit.
pub open spec fn spec_digit_char(d: nat) -> char {
    if d == 0 {
        '0'
    } else if d == 1 {
        '1'
    } else if d == 2 {
        '2'
    } else if d == 3 {
        '3'
    } else if d == 4 {
        '4'
    } else if d == 5 {
        '5'
    } else if d == 6 {
        '6'
    } else if d == 7 {
        '7'
    } else if d == 8 {
        '8'
    } else {
        '9'
    }
}

/// The decimal digits of `n`, most significant first, without leading
/// zeros (a single zero for zero itself).
pub open spec fn spec_decimal(n: nat) -> Seq<char>
    decreases n,
{
    if n < 10 {
        seq![spec_digit_char(n)]
    } else {
        spec_decimal(n / 10).push(spec_digit_char(n % 10))
    }
}

/// One decimal digit as text.
fn digit_str(d: u32) -> (r: &'static str)
    requires
        d < 10,
    ensures
        r@ == spec_decimal(d as nat),
{
    proof {
        reveal_strlit("0");
        reveal_strlit("1");
        reveal_strlit("2");
        reveal_strlit("3");
        reveal_strlit("4");
        reveal_strlit("5");
        reveal_strlit("6");
        reveal_strlit("7");
        reveal_strlit("8");
        reveal_strlit("9");
    }
    let r: &'static str = match d {
        0 => "0",
        1 => "1",
        2 => "2",
        3 => "3",
        4 => "4",
        5 => "5",
        6 => "6",
        7 => "7",
        8 => "8",
        _ => "9",
    };
    proof {
        assert(r@ =~= spec_decimal(d as nat));
    }
    r
}

/// Appends the decimal rendering of `n`.
fn push_decimal(r: &mut String, n: u32)
    ensures
        final(r)@ == old(r)@ + spec_decimal(n as nat),
    decreases n,
{
    let ghost pre = r@;
    if n >= 10 {
        push_decimal(r, n / 10);
    }
    r.append(digit_str(n % 10));
    proof {
        if n >= 10 {
            assert(r@ =~= pre + spec_decimal(n as nat));
        } else {
            assert(r@ =~= pre + spec_decimal(n as nat));
        }
    }
}

/// The compositor command that switches to workspace `target`:
/// `workspace` followed by the decimal workspace number.
pub fn workspace_command(target: i32) -> (r: String)
    requires
        0 <= target,
    ensures
        r@ == "workspace "@ + spec_decimal(target as nat),
{
    let mut r = String::new();
    r.append("workspace ");
    push_decimal(&mut r, target as u32);
    proof {
        assert(r@ =~= "workspace "@ + spec_decimal(target as nat));
    }
    r
}

/// The actions a sequence of queued events resolves to, each event on
/// its own.
pub open spec fn spec_route_all(desc: CommandDesc, events: Seq<InputCommand>) -> Seq<
    SpecRouteAction,
> {
    events.map_values(|e: InputCommand| desc.spec_route(e))
}

/// A compositor failure while performing one event's action cannot
/// disturb any other event: routing keeps no history, so the action each
/// queued event resolves to is a function of that event and the table
/// alone, whatever happened to the events routed before it.
pub proof fn lemma_route_actions_independent(
    desc: CommandDesc,
    events: Seq<InputCommand>,
    i: int,
)
    requires
        0 <= i < events.len(),
    ensures
        spec_route_all(desc, events).len() == events.len(),
        spec_route_all(desc, events)[i] == desc.spec_route(events[i]),
{
}

/// An event absent from the table routes to no action at all: a normal
/// outcome the caller logs and moves past, never an error.
pub proof fn lemma_unmapped_event_routes_clean(desc: CommandDesc, e: InputCommand)
    requires
        spec_entries_lookup(desc.mappings@, e) is None,
    ensures
        desc.spec_route(e) is NoMapping,
{
}

/// Dry-run mode never reaches the command sink: whatever the event and
/// the table, the resolved action only reports what would have run.
pub proof fn lemma_dry_run_never_reaches_sink(desc: CommandDesc, e: InputCommand)
    requires
        desc.dry_run,
    ensures
        desc.spec_route(e) is NoMapping || desc.spec_route(e) is DryRun,
{
}

/// Whether the table already holds an entry for key `k`.
fn table_contains_key(entries: &Vec<(InputCommand, OutputCommand)>, k: InputCommand) -> (r: bool)
    ensures
        r == (spec_entries_lookup(entries@, k) is Some),
{
    let mut j: usize = 0;
    while j < entries.len()
        invariant
            0 <= j <= entries@.len(),
            forall|jj: int| 0 <= jj < j ==> entries@[jj].0 != k,
        decreases entries@.len() - j,
    {
        if entries[j].0 == k {
            proof {
                lemma_entries_lookup_exists(entries@, k);
            }
            return true;
        }
        j = j + 1;
    }
    proof {
        lemma_entries_lookup_exists(entries@, k);
    }
    false
}

} // verus!
