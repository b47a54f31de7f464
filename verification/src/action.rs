//! The action and context data model.
//!
//! A context is a named state-machine node with an ordered action list.  An
//! action carries a kind, a declared target state, an opaque attribute blob
//! (`misc`, defaulting to the well-known empty-cell sentinel) and a set of
//! attributes derived from an encoded metadata string: whether it runs
//! instantly on context entry, whether it needs a user signature, and the
//! names of its getter/setter/format helper functions.

use vstd::prelude::*;
use vstd::string::*;
use crate::state::{StateId, spec_state_from_code, state_from_code};
use crate::value::{Json, spec_get, as_text_spec, as_int_spec, str_eq};

verus! {

/// The well-known "empty cell" sentinel: the default of an action's `misc`
/// attribute, meaning that no extra value is attached.
pub open spec fn empty_cell_text() -> Seq<char> {
    "te6ccgEBAQEAAgAAAA=="@
}

/// The well-known "empty cell" sentinel as text.
pub fn empty_cell() -> (r: &'static str)
    ensures
        r@ == empty_cell_text(),
{
    "te6ccgEBAQEAAgAAAA=="
}

/// The closed set of action kinds.
#[derive(Clone, Copy, PartialEq, Eq, Structural, Debug)]
pub enum ActionKind {
    /// No work.
    Empty,
    /// A mutating call against the self contract, simulated locally.
    RunAction,
    /// A read-only call against the target contract.
    RunMethod,
    /// Construct, sign and submit a real message.
    SendMsg,
    /// Delegate to a nested session.
    Invoke,
    /// Produce a log line, optionally templated.
    Print,
    /// A pure transition.
    Goto,
    /// Invoke a named local utility routine.
    CallEngine,
    /// An unrecognized kind: always fails to execute.
    Unsupported,
}

/// Decode a numeric action-kind code.
pub open spec fn spec_kind_from_code(c: u8) -> ActionKind {
    if c == 0 { ActionKind::Empty } else if c == 1 { ActionKind::RunAction }
    else if c == 2 { ActionKind::RunMethod } else if c == 3 { ActionKind::SendMsg }
    else if c == 4 { ActionKind::Invoke } else if c == 5 { ActionKind::Print }
    else if c == 6 { ActionKind::Goto } else if c == 7 { ActionKind::CallEngine }
    else { ActionKind::Unsupported }
}

/// Decode a numeric action-kind code.
pub fn kind_from_code(c: u8) -> (r: ActionKind)
    ensures
        r == spec_kind_from_code(c),
{
    if c == 0 { ActionKind::Empty } else if c == 1 { ActionKind::RunAction }
    else if c == 2 { ActionKind::RunMethod } else if c == 3 { ActionKind::SendMsg }
    else if c == 4 { ActionKind::Invoke } else if c == 5 { ActionKind::Print }
    else if c == 6 { ActionKind::Goto } else if c == 7 { ActionKind::CallEngine }
    else { ActionKind::Unsupported }
}

/// An action's attributes, parsed from its encoded metadata string.
pub struct ActionAttrs {
    /// Runs automatically on context entry, without user selection.
    pub instant: bool,
    /// Needs a key pair collected from the user.
    pub sign_by_user: bool,
    /// The named helper function (`func=`): a get-method, or a setter.
    pub func: Option<String>,
    /// The named argument-getter function (`args=`).
    pub args: Option<String>,
    /// The named format-arguments function (`fargs=`).
    pub fargs: Option<String>,
}

/// The mathematical view of a set of attributes.
pub struct AttrsView {
    pub instant: bool,
    pub sign_by_user: bool,
    pub func: Option<Seq<char>>,
    pub args: Option<Seq<char>>,
    pub fargs: Option<Seq<char>>,
}

/// The view of an optional string.
pub open spec fn opt_text(o: Option<String>) -> Option<Seq<char>> {
    match o {
        Some(s) => Some(s@),
        None => None,
    }
}

impl ActionAttrs {
    /// The attributes' mathematical view.
    pub open spec fn view_spec(self) -> AttrsView {
        AttrsView {
            instant: self.instant,
            sign_by_user: self.sign_by_user,
            func: opt_text(self.func),
            args: opt_text(self.args),
            fargs: opt_text(self.fargs),
        }
    }

    /// Attributes with nothing set: the meaning of an empty metadata string.
    pub fn none() -> (r: ActionAttrs)
        ensures
            r.view_spec() == (AttrsView {
                instant: false,
                sign_by_user: false,
                func: None,
                args: None,
                fargs: None,
            }),
    {
        ActionAttrs { instant: false, sign_by_user: false, func: None, args: None, fargs: None }
    }
}

/// The effect of one metadata item on the attributes: the exact words
/// `instant` and `sign=by_user` set their flags; `func=`, `args=` and
/// `fargs=` bind the text after the equals sign; anything else is ignored.
pub open spec fn apply_item(acc: AttrsView, item: Seq<char>) -> AttrsView {
    if item == "instant"@ {
        AttrsView { instant: true, ..acc }
    } else if item == "sign=by_user"@ {
        AttrsView { sign_by_user: true, ..acc }
    } else if item.len() >= 5 && item.subrange(0, 5) == "func="@ {
        AttrsView { func: Some(item.skip(5)), ..acc }
    } else if item.len() >= 5 && item.subrange(0, 5) == "args="@ {
        AttrsView { args: Some(item.skip(5)), ..acc }
    } else if item.len() >= 6 && item.subrange(0, 6) == "fargs="@ {
        AttrsView { fargs: Some(item.skip(6)), ..acc }
    } else {
        acc
    }
}

/// The attributes denoted by the tail of a metadata string, given the
/// segment read so far and the attributes gathered so far: segments are
/// separated by commas and applied left to right.
pub open spec fn parse_attrs_tail(s: Seq<char>, cur: Seq<char>, acc: AttrsView) -> AttrsView
    decreases s.len(),
{
    if s.len() == 0 {
        apply_item(acc, cur)
    } else if s[0] == ',' {
        parse_attrs_tail(s.skip(1), Seq::empty(), apply_item(acc, cur))
    } else {
        parse_attrs_tail(s.skip(1), cur.push(s[0]), acc)
    }
}

/// The attributes denoted by a metadata string.
pub open spec fn spec_parse_attrs(s: Seq<char>) -> AttrsView {
    parse_attrs_tail(
        s,
        Seq::empty(),
        AttrsView { instant: false, sign_by_user: false, func: None, args: None, fargs: None },
    )
}

fn apply_item_exec(acc: ActionAttrs, item: &String) -> (r: ActionAttrs)
    ensures
        r.view_spec() == apply_item(acc.view_spec(), item@),
{
    let n = item.as_str().unicode_len();
    if str_eq(item.as_str(), "instant") {
        return ActionAttrs { instant: true, ..acc };
    }
    if str_eq(item.as_str(), "sign=by_user") {
        return ActionAttrs { sign_by_user: true, ..acc };
    }
    if n >= 5 && str_eq(item.as_str().substring_char(0, 5), "func=") {
        let rest = String::from_str(item.as_str().substring_char(5, n));
        proof {
            assert(rest@ =~= item@.skip(5));
        }
        return ActionAttrs { func: Some(rest), ..acc };
    }
    if n >= 5 && str_eq(item.as_str().substring_char(0, 5), "args=") {
        let rest = String::from_str(item.as_str().substring_char(5, n));
        proof {
            assert(rest@ =~= item@.skip(5));
        }
        return ActionAttrs { args: Some(rest), ..acc };
    }
    if n >= 6 && str_eq(item.as_str().substring_char(0, 6), "fargs=") {
        let rest = String::from_str(item.as_str().substring_char(6, n));
        proof {
            assert(rest@ =~= item@.skip(6));
        }
        return ActionAttrs { fargs: Some(rest), ..acc };
    }
    acc
}

/// Parse an encoded metadata string into attributes (see `apply_item`).
pub fn parse_attrs(s: &str) -> (r: ActionAttrs)
    ensures
        r.view_spec() == spec_parse_attrs(s@),
{
    let n = s.unicode_len();
    let mut i: usize = 0;
    let mut cur = String::new();
    let mut acc = ActionAttrs::none();
    proof {
        assert(s@.skip(0) =~= s@);
    }
    while i < n
        invariant
            i <= n,
            n == s@.len(),
            spec_parse_attrs(s@) == parse_attrs_tail(s@.skip(i as int), cur@, acc.view_spec()),
        decreases n - i,
    {
        let c = s.get_char(i);
        let ghost t = s@.skip(i as int);
        proof {
            assert(t[0] == s@[i as int]);
            assert(t.skip(1) =~= s@.skip(i as int + 1));
        }
        if c == ',' {
            acc = apply_item_exec(acc, &cur);
            cur = String::new();
        } else {
            let ghost cur0 = cur@;
            let piece = crate::codec::char_str(c);
            cur.append(piece.as_str());
            proof {
                assert(cur@ =~= cur0.push(c));
            }
        }
        i = i + 1;
    }
    proof {
        assert(s@.skip(i as int).len() == 0);
    }
    apply_item_exec(acc, &cur)
}

/// An action: a unit of work attached to a context.
pub struct DAction {
    /// The contract function (or template, for a print action) it names.
    pub name: String,
    /// Human-readable description.
    pub desc: String,
    /// The declared target state, entered after successful execution.
    pub to: StateId,
    /// What executing the action means.
    pub kind: ActionKind,
    /// Opaque attribute blob; the empty-cell sentinel when absent.
    pub misc: String,
    /// Attributes parsed from the encoded metadata string.
    pub attrs: ActionAttrs,
}

/// The mathematical view of an action.
pub struct ActionView {
    pub name: Seq<char>,
    pub desc: Seq<char>,
    pub to: StateId,
    pub kind: ActionKind,
    pub misc: Seq<char>,
    pub attrs: AttrsView,
}

fn dup_opt_text(o: &Option<String>) -> (r: Option<String>)
    ensures
        opt_text(r) == opt_text(*o),
{
    match o {
        Some(s) => Some(s.clone()),
        None => None,
    }
}

impl DAction {
    /// The action's mathematical view.
    pub open spec fn view_spec(self) -> ActionView {
        ActionView {
            name: self.name@,
            desc: self.desc@,
            to: self.to,
            kind: self.kind,
            misc: self.misc@,
            attrs: self.attrs.view_spec(),
        }
    }

    /// Runs automatically on context entry, without user selection.
    pub open spec fn spec_is_instant(self) -> bool {
        self.attrs.instant
    }

    /// Runs automatically on context entry, without user selection.
    pub fn is_instant(&self) -> (r: bool)
        ensures
            r == self.spec_is_instant(),
    {
        self.attrs.instant
    }

    /// Executes without user interaction and requests no transition itself.
    pub open spec fn spec_is_engine_call(self) -> bool {
        self.kind == ActionKind::CallEngine
    }

    /// Executes without user interaction and requests no transition itself.
    pub fn is_engine_call(&self) -> (r: bool)
        ensures
            r == self.spec_is_engine_call(),
    {
        match self.kind {
            ActionKind::CallEngine => true,
            _ => false,
        }
    }

    /// Needs a key pair collected from the user.
    pub fn sign_by_user(&self) -> (r: bool)
        ensures
            r == self.attrs.sign_by_user,
    {
        self.attrs.sign_by_user
    }

    /// An exact copy of the action.
    pub fn dup(&self) -> (r: DAction)
        ensures
            r.view_spec() == self.view_spec(),
    {
        DAction {
            name: self.name.clone(),
            desc: self.desc.clone(),
            to: self.to,
            kind: self.kind,
            misc: self.misc.clone(),
            attrs: ActionAttrs {
                instant: self.attrs.instant,
                sign_by_user: self.attrs.sign_by_user,
                func: dup_opt_text(&self.attrs.func),
                args: dup_opt_text(&self.attrs.args),
                fargs: dup_opt_text(&self.attrs.fargs),
            },
        }
    }
}

/// A context: a named state-machine node with an ordered action list.
pub struct DContext {
    /// The context's numeric identifier.
    pub id: u8,
    /// Human-readable description, logged on entry.
    pub desc: String,
    /// The ordered action list.
    pub actions: Vec<DAction>,
}

/// The mathematical view of a context.
pub struct ContextView {
    pub id: u8,
    pub desc: Seq<char>,
    pub actions: Seq<ActionView>,
}

/// The views of a list of actions, in order.
pub open spec fn action_views(s: Seq<DAction>) -> Seq<ActionView> {
    s.map_values(|a: DAction| a.view_spec())
}

impl DContext {
    /// The context's mathematical view.
    pub open spec fn view_spec(self) -> ContextView {
        ContextView { id: self.id, desc: self.desc@, actions: action_views(self.actions@) }
    }

    /// An exact copy of the context.
    pub fn dup(&self) -> (r: DContext)
        ensures
            r.view_spec() == self.view_spec(),
    {
        let n = self.actions.len();
        let mut actions: Vec<DAction> = Vec::new();
        let mut i: usize = 0;
        while i < n
            invariant
                i <= n,
                n == self.actions@.len(),
                actions@.len() == i,
                forall|j: int| 0 <= j < i
                    ==> (#[trigger] actions@[j]).view_spec() == self.actions@[j].view_spec(),
            decreases n - i,
        {
            actions.push(self.actions[i].dup());
            i = i + 1;
        }
        let r = DContext { id: self.id, desc: self.desc.clone(), actions };
        proof {
            assert(action_views(r.actions@) =~= action_views(self.actions@));
        }
        r
    }
}

/// A small integer field of a document, when present and in range.
pub open spec fn json_u8(v: Json, key: Seq<char>) -> Option<u8> {
    match as_int_spec(spec_get(v, key)) {
        Some(i) => if 0 <= i <= 255 {
            Some(i as u8)
        } else {
            None
        },
        None => None,
    }
}

/// A text field of a document, with a default when absent: nothing when the
/// field is present but not text.
pub open spec fn text_or(v: Json, key: Seq<char>, dflt: Seq<char>) -> Option<Seq<char>> {
    if spec_get(v, key) is Null {
        Some(dflt)
    } else {
        as_text_spec(spec_get(v, key))
    }
}

/// The action denoted by a fetched document node: a text `name`, numeric
/// `actionType` and `to`, and optional text `desc`, `attrs` and `misc`
/// fields (`misc` defaults to the empty-cell sentinel); nothing when any
/// required field is missing or ill-typed.
pub open spec fn parse_action_view(v: Json) -> Option<ActionView> {
    match as_text_spec(spec_get(v, "name"@)) {
        None => None,
        Some(name) => match json_u8(v, "actionType"@) {
            None => None,
            Some(k) => match json_u8(v, "to"@) {
                None => None,
                Some(to) => match text_or(v, "desc"@, Seq::empty()) {
                    None => None,
                    Some(desc) => match text_or(v, "attrs"@, Seq::empty()) {
                        None => None,
                        Some(attrs) => match text_or(v, "misc"@, empty_cell_text()) {
                            None => None,
                            Some(misc) => Some(ActionView {
                                name,
                                desc,
                                to: spec_state_from_code(to),
                                kind: spec_kind_from_code(k),
                                misc,
                                attrs: spec_parse_attrs(attrs),
                            }),
                        },
                    },
                },
            },
        },
    }
}

fn get_u8(v: &Json, key: &str) -> (r: Option<u8>)
    ensures
        r == json_u8(*v, key@),
{
    match v.get(key).as_i64() {
        Some(i) => if 0 <= i && i <= 255 {
            Some(i as u8)
        } else {
            None
        },
        None => None,
    }
}

fn get_text_or(v: &Json, key: &str, dflt: &str) -> (r: Option<String>)
    ensures
        match r {
            Some(s) => text_or(*v, key@, dflt@) == Some(s@),
            None => text_or(*v, key@, dflt@) is None,
        },
{
    let f = v.get(key);
    if f.is_null() {
        Some(String::from_str(dflt))
    } else {
        match f.as_str() {
            Some(s) => Some(s.clone()),
            None => None,
        }
    }
}

/// Decode one fetched action (see `parse_action_view`).
pub fn parse_action(v: &Json) -> (r: Option<DAction>)
    ensures
        match r {
            Some(a) => parse_action_view(*v) == Some(a.view_spec()),
            None => parse_action_view(*v) is None,
        },
{
    proof {
        reveal_strlit("");
        assert(""@ =~= Seq::<char>::empty());
    }
    let name = match v.get("name").as_str() {
        Some(s) => s.clone(),
        None => {
            return None;
        },
    };
    let k = match get_u8(v, "actionType") {
        Some(k) => k,
        None => {
            return None;
        },
    };
    let to = match get_u8(v, "to") {
        Some(t) => t,
        None => {
            return None;
        },
    };
    let desc = match get_text_or(v, "desc", "") {
        Some(d) => d,
        None => {
            return None;
        },
    };
    let attrs_text = match get_text_or(v, "attrs", "") {
        Some(a) => a,
        None => {
            return None;
        },
    };
    let misc = match get_text_or(v, "misc", empty_cell()) {
        Some(m) => m,
        None => {
            return None;
        },
    };
    Some(DAction {
        name,
        desc,
        to: state_from_code(to),
        kind: kind_from_code(k),
        misc,
        attrs: parse_attrs(attrs_text.as_str()),
    })
}

/// The actions denoted by a list of document nodes: all of them, in order,
/// or nothing when any fails to decode.
pub open spec fn parse_actions_view(items: Seq<Json>) -> Option<Seq<ActionView>>
    decreases items.len(),
{
    if items.len() == 0 {
        Some(Seq::empty())
    } else {
        match parse_action_view(items[0]) {
            None => None,
            Some(a) => match parse_actions_view(items.skip(1)) {
                None => None,
                Some(rest) => Some(seq![a] + rest),
            },
        }
    }
}

/// The context denoted by a fetched document node: a numeric `id`, an
/// optional text `desc`, and an `actions` array whose members all decode.
pub open spec fn parse_context_view(v: Json) -> Option<ContextView> {
    match json_u8(v, "id"@) {
        None => None,
        Some(id) => match text_or(v, "desc"@, Seq::empty()) {
            None => None,
            Some(desc) => match spec_get(v, "actions"@) {
                Json::Arr(items) => match parse_actions_view(items@) {
                    None => None,
                    Some(actions) => Some(ContextView { id, desc, actions }),
                },
                _ => None,
            },
        },
    }
}

/// Decode one fetched context (see `parse_context_view`).
pub fn parse_context(v: &Json) -> (r: Option<DContext>)
    ensures
        match r {
            Some(c) => parse_context_view(*v) == Some(c.view_spec()),
            None => parse_context_view(*v) is None,
        },
{
    proof {
        reveal_strlit("");
        assert(""@ =~= Seq::<char>::empty());
    }
    let id = match get_u8(v, "id") {
        Some(i) => i,
        None => {
            return None;
        },
    };
    let desc = match get_text_or(v, "desc", "") {
        Some(d) => d,
        None => {
            return None;
        },
    };
    let items = match v.get("actions") {
        Json::Arr(items) => items,
        _ => {
            return None;
        },
    };
    let n = items.len();
    let mut actions: Vec<DAction> = Vec::new();
    let mut i: usize = 0;
    proof {
        assert(items@.skip(0) =~= items@);
    }
    while i < n
        invariant
            i <= n,
            n == items@.len(),
            actions@.len() == i,
            json_u8(*v, "id"@) == Some(id),
            text_or(*v, "desc"@, Seq::empty()) == Some(desc@),
            (match spec_get(*v, "actions"@) {
                Json::Arr(it) => it@ == items@,
                _ => false,
            }),
            forall|j: int| 0 <= j < i
                ==> parse_action_view(items@[j]) == Some(
                    (#[trigger] actions@[j]).view_spec(),
                ),
            parse_actions_view(items@) is Some <==> parse_actions_view(items@.skip(i as int)) is Some,
            parse_actions_view(items@) matches Some(all)
                ==> all =~= action_views(actions@) + parse_actions_view(items@.skip(i as int))->0,
        decreases n - i,
    {
        let ghost t = items@.skip(i as int);
        proof {
            assert(t[0] == items@[i as int]);
            assert(t.skip(1) =~= items@.skip(i + 1));
        }
        let a = match parse_action(&items[i]) {
            Some(a) => a,
            None => {
                return None;
            },
        };
        actions.push(a);
        i = i + 1;
        proof {
            assert(action_views(actions@) =~= action_views(actions@.subrange(0, i - 1)).push(
                actions@[i - 1].view_spec(),
            ));
        }
    }
    proof {
        assert(items@.skip(i as int).len() == 0);
    }
    let r = DContext { id, desc, actions };
    proof {
        assert(parse_actions_view(items@)->0 =~= action_views(r.actions@));
    }
    Some(r)
}

/// The contexts denoted by a list of document nodes: all of them, in order,
/// or nothing when any fails to decode.
pub open spec fn parse_contexts_view(items: Seq<Json>) -> Option<Seq<ContextView>>
    decreases items.len(),
{
    if items.len() == 0 {
        Some(Seq::empty())
    } else {
        match parse_context_view(items[0]) {
            None => None,
            Some(c) => match parse_contexts_view(items.skip(1)) {
                None => None,
                Some(rest) => Some(seq![c] + rest),
            },
        }
    }
}

/// The views of a list of contexts, in order.
pub open spec fn context_views(s: Seq<DContext>) -> Seq<ContextView> {
    s.map_values(|c: DContext| c.view_spec())
}

/// Decode a fetched context graph: an array whose members all decode.
pub fn parse_contexts(v: &Json) -> (r: Option<Vec<DContext>>)
    ensures
        match r {
            Some(cs) => ({
                &&& *v is Arr
                &&& parse_contexts_view((match *v {
                    Json::Arr(items) => items@,
                    _ => Seq::empty(),
                })) == Some(context_views(cs@))
            }),
            None => !(*v is Arr) || parse_contexts_view((match *v {
                Json::Arr(items) => items@,
                _ => Seq::empty(),
            })) is None,
        },
{
    let items = match v {
        Json::Arr(items) => items,
        _ => {
            return None;
        },
    };
    let n = items.len();
    let mut out: Vec<DContext> = Vec::new();
    let mut i: usize = 0;
    proof {
        assert(items@.skip(0) =~= items@);
    }
    while i < n
        invariant
            i <= n,
            n == items@.len(),
            out@.len() == i,
            (match *v {
                Json::Arr(it) => it@ == items@,
                _ => false,
            }),
            forall|j: int| 0 <= j < i
                ==> parse_context_view(items@[j]) == Some((#[trigger] out@[j]).view_spec()),
            parse_contexts_view(items@) is Some <==> parse_contexts_view(items@.skip(i as int)) is Some,
            parse_contexts_view(items@) matches Some(all)
                ==> all =~= context_views(out@) + parse_contexts_view(items@.skip(i as int))->0,
        decreases n - i,
    {
        let ghost t = items@.skip(i as int);
        proof {
            assert(t[0] == items@[i as int]);
            assert(t.skip(1) =~= items@.skip(i + 1));
        }
        let c = match parse_context(&items[i]) {
            Some(c) => c,
            None => {
                return None;
            },
        };
        out.push(c);
        i = i + 1;
        proof {
            assert(context_views(out@) =~= context_views(out@.subrange(0, i - 1)).push(
                out@[i - 1].view_spec(),
            ));
        }
    }
    proof {
        assert(items@.skip(i as int).len() == 0);
        assert(parse_contexts_view(items@)->0 =~= context_views(out@));
    }
    Some(out)
}

} // verus!
