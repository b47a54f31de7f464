//! The session engine: state machine, action dispatcher and call façade.
//!
//! The engine drives a conversational session over a dynamically fetched
//! graph of contexts.  The remote contract-call service, the interactive
//! front end and the utility-routine registry are collaborators reached
//! through the traits below; the engine's own logic — state switching,
//! instant-action replay, per-kind dispatch, call-result plumbing and error
//! classification — is verified against their interfaces.

use vstd::prelude::*;
use vstd::string::*;
use crate::state::{StateId, STATE_ZERO, spec_resolve, resolve};
use crate::strutil::{
    dec_seq_valid, hex_seq_valid, find_from, contains_seq, find_sub, lemma_find_from_is_match,
    u64_to_dec, parse_hex_u64,
};
use crate::value::{Json, spec_get, as_text_spec, as_int_spec, str_eq, obj1_text, obj1_int,
    obj_empty};
use crate::codec::{hex_valid, hex_decode_seq, utf8_decoding, str_hex_to_utf8, base64_decode};
use crate::action::{
    ActionKind, ActionView, DAction, DContext, ContextView, context_views, action_views,
    parse_action, parse_contexts, empty_cell, empty_cell_text,
};
use crate::routines::format_string;

verus! {

/// A contract address, held as validated text of the form
/// `<workchain>:<64 hex digits>`.
pub struct TonAddr {
    /// The address text.
    pub text: String,
}

/// The workchain part of an address: decimal digits, optionally preceded by
/// a minus sign.
pub open spec fn workchain_valid(w: Seq<char>) -> bool {
    (w.len() >= 1 && dec_seq_valid(w)) || (w.len() >= 2 && w[0] == '-' && dec_seq_valid(w.skip(1)))
}

/// A well-formed address: workchain, colon, and a 64-digit hex account id.
pub open spec fn addr_valid(s: Seq<char>) -> bool {
    match find_from(s, seq![':'], 0) {
        None => false,
        Some(k) => workchain_valid(s.subrange(0, k)) && s.len() - k - 1 == 64 && hex_seq_valid(
            s.subrange(k + 1, s.len() as int),
        ),
    }
}

impl TonAddr {
    /// An exact copy of the address.
    pub fn dup(&self) -> (r: TonAddr)
        ensures
            r.text@ == self.text@,
    {
        TonAddr { text: self.text.clone() }
    }
}

fn all_dec_range(s: &str, from: usize, to: usize) -> (r: bool)
    requires
        from <= to <= s@.len(),
    ensures
        r == dec_seq_valid(s@.subrange(from as int, to as int)),
{
    let mut i: usize = from;
    while i < to
        invariant
            from <= i <= to <= s@.len(),
            forall|j: int| from <= j < i ==> crate::strutil::is_dec_digit(#[trigger] s@[j]),
        decreases to - i,
    {
        let c = s.get_char(i);
        if !('0' <= c && c <= '9') {
            proof {
                assert(!crate::strutil::is_dec_digit(s@.subrange(from as int, to as int)[i - from]));
            }
            return false;
        }
        i = i + 1;
    }
    proof {
        assert forall|j: int| 0 <= j < to - from implies crate::strutil::is_dec_digit(
            #[trigger] s@.subrange(from as int, to as int)[j],
        ) by {
            assert(s@.subrange(from as int, to as int)[j] == s@[from + j]);
        }
    }
    true
}

fn all_hex_range(s: &str, from: usize, to: usize) -> (r: bool)
    requires
        from <= to <= s@.len(),
    ensures
        r == hex_seq_valid(s@.subrange(from as int, to as int)),
{
    let mut i: usize = from;
    while i < to
        invariant
            from <= i <= to <= s@.len(),
            forall|j: int| from <= j < i ==> crate::strutil::is_hex_digit(#[trigger] s@[j]),
        decreases to - i,
    {
        let c = s.get_char(i);
        if !crate::strutil::is_hex_digit_exec(c) {
            proof {
                assert(!crate::strutil::is_hex_digit(s@.subrange(from as int, to as int)[i - from]));
            }
            return false;
        }
        i = i + 1;
    }
    proof {
        assert forall|j: int| 0 <= j < to - from implies crate::strutil::is_hex_digit(
            #[trigger] s@.subrange(from as int, to as int)[j],
        ) by {
            assert(s@.subrange(from as int, to as int)[j] == s@[from + j]);
        }
    }
    true
}

/// Parse and validate a contract address.
pub fn load_ton_address(addr: &str) -> (r: Result<TonAddr, String>)
    ensures
        match r {
            Ok(a) => addr_valid(addr@) && a.text@ == addr@,
            Err(_) => !addr_valid(addr@),
        },
{
    proof {
        reveal_strlit(":");
        assert(":"@ =~= seq![':']);
    }
    let n = addr.unicode_len();
    let k = match find_sub(addr, ":", 0) {
        Some(k) => k,
        None => {
            return Err(String::from_str("failed to parse address: no workchain separator"));
        },
    };
    proof {
        lemma_find_from_is_match(addr@, ":"@, 0);
    }
    let wc_ok = if all_dec_range(addr, 0, k) {
        k >= 1
    } else if k >= 2 && addr.get_char(0) == '-' {
        let r = all_dec_range(addr, 1, k);
        proof {
            let w = addr@.subrange(0, k as int);
            assert(w.skip(1) =~= addr@.subrange(1, k as int));
            assert(w[0] == addr@[0]);
        }
        r
    } else {
        false
    };
    proof {
        let w = addr@.subrange(0, k as int);
        if w.len() >= 1 {
            assert(w[0] == addr@[0]);
        }
        if w.len() >= 2 {
            assert(w.skip(1) =~= addr@.subrange(1, k as int));
        }
    }
    if !wc_ok {
        return Err(String::from_str("failed to parse address: bad workchain"));
    }
    if !(n - k - 1 == 64 && all_hex_range(addr, k + 1, n)) {
        return Err(String::from_str("failed to parse address: bad account id"));
    }
    Ok(TonAddr { text: String::from_str(addr) })
}

/// A signing key pair, held as hex text and passed through to the call
/// service; the engine never reads it.
pub struct KeyPair {
    /// The public key, hex-encoded.
    pub public: String,
    /// The secret key, hex-encoded.
    pub secret: String,
}

/// A structured failure of the call service.
pub enum ServiceError {
    /// An error raised inside the service, with a numeric code and optional
    /// structured detail.
    Inner { message: String, code: u32, data: Json },
    /// Any other failure, already rendered as text.
    Other(String),
}

/// What a simulated call returns: the decoded output, and an updated
/// account snapshot when the call produced one.
pub struct RunOutput {
    /// The decoded function output.
    pub output: Json,
    /// The account state after the simulated transaction, if returned.
    pub account: Option<Json>,
}

/// An encoded on-chain message, opaque but for its identifier.
pub struct EncodedMessage {
    /// The message identifier, logged before submission.
    pub message_id: String,
    /// The encoded message body.
    pub body: Vec<u8>,
}

/// A message body decoded against an interface description.
pub struct DecodedBody {
    /// The called function's name.
    pub function: String,
    /// The decoded arguments.
    pub args: Json,
}

/// The remote contract-call service (a collaborator): simulates calls,
/// constructs, signs and submits messages, and answers account queries.
/// Nothing is assumed of its answers; the engine's contracts hold for every
/// outcome.
pub trait CallService {
    /// Run a function locally against an address, optionally threading an
    /// account state through, optionally emulating a real transaction.
    fn run_local(
        &mut self,
        addr: &TonAddr,
        state: Option<&Json>,
        abi: &str,
        func: &str,
        args: &Json,
        emulate: bool,
    ) -> Result<RunOutput, ServiceError>;

    /// Construct (and sign, when keys are given) a message calling `func`.
    fn create_message(
        &mut self,
        addr: &TonAddr,
        abi: &str,
        func: &str,
        args: &Json,
        keys: Option<&KeyPair>,
    ) -> Result<EncodedMessage, ServiceError>;

    /// Attach initial-state bytes to a constructed message.
    fn attach_state(&mut self, msg: EncodedMessage, state: Vec<u8>) -> Result<
        EncodedMessage,
        String,
    >;

    /// Decode a message body against an interface description.
    fn decode_input_body(&mut self, abi: &str, body: &Vec<u8>) -> Result<DecodedBody, ServiceError>;

    /// Submit a message on-chain and decode its output.
    fn submit_message(&mut self, msg: EncodedMessage, abi: &str, func: &str) -> Result<
        Json,
        ServiceError,
    >;

    /// Query account records matching a filter, returning the named fields.
    fn query_accounts(&mut self, filter: &Json, fields: &str) -> Result<Vec<Json>, ServiceError>;
}

/// The interactive front end (a collaborator): notifications, logging,
/// action presentation and credential collection.
pub trait BrowserCallbacks {
    /// Notify of a state change.
    fn switch(&mut self, ctx_id: StateId);

    /// Show a log line to the user.
    fn log(&mut self, msg: String);

    /// Present an interactive action for the user to choose.
    fn show_action(&mut self, act: DAction);

    /// Collect a line of input from the user.
    fn input(&mut self, prompt: &str) -> String;

    /// Collect a signing key pair from the user.
    fn load_key(&mut self) -> KeyPair;

    /// Invoke a nested session at the given address with the given action.
    fn invoke_debot(&mut self, debot: TonAddr, action: DAction) -> Result<(), String>;
}

/// The utility-routine registry (a collaborator): a mapping from routine
/// name to implementation; unknown names fail.
pub trait RoutineRegistry {
    /// Invoke the named routine on the given argument text.
    fn invoke_routine(&mut self, name: &str, args: &str, keys: Option<KeyPair>) -> Result<
        String,
        String,
    >;
}

/// The option bitmask of a `getDebotOptions` output: a text `options`
/// field holding a hex number no wider than a byte, with an optional `0x`
/// prefix.
pub open spec fn options_mask(out: Json) -> Option<u8> {
    match as_text_spec(spec_get(out, "options"@)) {
        None => None,
        Some(h) => {
            let start: int = if h.len() >= 2 && h[0] == '0' && h[1] == 'x' {
                2
            } else {
                0
            };
            let digits = h.subrange(start, h.len() as int);
            if digits.len() > 0 && hex_seq_valid(digits) && crate::strutil::hex_seq_num(digits)
                <= 255 {
                Some(crate::strutil::hex_seq_num(digits) as u8)
            } else {
                None
            }
        },
    }
}

/// The `debotAbi` field of an options output decodes to interface text.
pub open spec fn abi_field_ok(out: Json) -> bool {
    match as_text_spec(spec_get(out, "debotAbi"@)) {
        Some(h) => hex_valid(h) && utf8_decoding(hex_decode_seq(h)) is Some,
        None => false,
    }
}

/// The `targetAbi` field of an options output is text.
pub open spec fn target_abi_field_ok(out: Json) -> bool {
    as_text_spec(spec_get(out, "targetAbi"@)) is Some
}

/// The `targetAddr` field of an options output is a well-formed address.
pub open spec fn target_addr_field_ok(out: Json) -> bool {
    match as_text_spec(spec_get(out, "targetAddr"@)) {
        Some(a) => addr_valid(a),
        None => false,
    }
}

/// An options output that applies cleanly: the mask parses, and each set
/// bit's field is present and decodes.
pub open spec fn options_applicable(out: Json) -> bool {
    match options_mask(out) {
        Some(m) => {
            &&& (m & 1 != 0 ==> abi_field_ok(out))
            &&& (m & 2 != 0 ==> target_abi_field_ok(out))
            &&& (m & 4 != 0 ==> target_addr_field_ok(out))
        },
        None => false,
    }
}

/// No context of the graph carries an instant action.
pub open spec fn graph_no_instants(g: Seq<ContextView>) -> bool {
    forall|i: int, j: int|
        0 <= i < g.len() && 0 <= j < g[i].actions.len()
            ==> !g[i].actions[j].attrs.instant
}

/// Some member of a `functions` array is named `name`.
pub open spec fn functions_named(fs: Seq<Json>, name: Seq<char>) -> bool {
    exists|i: int| 0 <= i < fs.len() && as_text_spec(spec_get(#[trigger] fs[i], "name"@))
        == Some(name)
}

/// The first member of a `functions` array named `name`, if any.
pub open spec fn first_named(fs: Seq<Json>, name: Seq<char>) -> Option<Json>
    decreases fs.len(),
{
    if fs.len() == 0 {
        None
    } else if as_text_spec(spec_get(fs[0], "name"@)) == Some(name) {
        Some(fs[0])
    } else {
        first_named(fs.skip(1), name)
    }
}

/// A member at `i` whose earlier siblings all bear other names is the first
/// one so named.
proof fn lemma_first_named_at(fs: Seq<Json>, name: Seq<char>, i: int)
    requires
        0 <= i < fs.len(),
        as_text_spec(spec_get(fs[i], "name"@)) == Some(name),
        forall|j: int| 0 <= j < i ==> as_text_spec(spec_get(#[trigger] fs[j], "name"@))
            != Some(name),
    ensures
        first_named(fs, name) == Some(fs[i]),
    decreases i,
{
    if i > 0 {
        let t = fs.skip(1);
        assert(t[i - 1] == fs[i]);
        assert forall|j: int| 0 <= j < i - 1 implies as_text_spec(spec_get(
            #[trigger] t[j],
            "name"@,
        )) != Some(name) by {
            assert(t[j] == fs[j + 1]);
        }
        lemma_first_named_at(t, name, i - 1);
    }
}

/// An array with no member named `name` has no first member so named.
proof fn lemma_unnamed_no_first(fs: Seq<Json>, name: Seq<char>)
    requires
        !functions_named(fs, name),
    ensures
        first_named(fs, name) is None,
    decreases fs.len(),
{
    if fs.len() > 0 {
        assert(as_text_spec(spec_get(fs[0], "name"@)) != Some(name));
        if functions_named(fs.skip(1), name) {
            let k = choose|k: int| 0 <= k < fs.skip(1).len() && as_text_spec(spec_get(
                #[trigger] fs.skip(1)[k],
                "name"@,
            )) == Some(name);
            assert(fs.skip(1)[k] == fs[k + 1]);
            assert(functions_named(fs, name));
        }
        lemma_unnamed_no_first(fs.skip(1), name);
    }
}

/// A declared input is well-formed: it bears a text name.
pub open spec fn input_wf(v: Json) -> bool {
    as_text_spec(spec_get(v, "name"@)) is Some
}

/// Every declared input bears a text name.
pub open spec fn inputs_wf(ins: Seq<Json>) -> bool {
    forall|i: int| 0 <= i < ins.len() ==> input_wf(#[trigger] ins[i])
}

/// A declared input of type `bytes`, whose collected value is hex-encoded.
pub open spec fn input_is_bytes(v: Json) -> bool {
    as_text_spec(spec_get(v, "type"@)) == Some("bytes"@)
}

/// An argument document built from declared inputs: one text field per
/// input, in declared order, under the input's name; a `bytes` input's
/// value is valid hex.
pub open spec fn args_match_inputs(v: Json, ins: Seq<Json>) -> bool {
    match v {
        Json::Obj(fields) => fields@.len() == ins.len() && forall|i: int| 0 <= i < ins.len()
            ==> ({
                &&& as_text_spec(spec_get(#[trigger] ins[i], "name"@)) == Some(fields@[i].0@)
                &&& (match fields@[i].1 {
                    Json::Str(t) => input_is_bytes(ins[i]) ==> hex_valid(t@),
                    _ => false,
                })
            }),
        _ => false,
    }
}

/// The argument document `{"misc": <text>}`.
pub open spec fn is_misc_obj(v: Json, misc: Seq<char>) -> bool {
    &&& v matches Json::Obj(fields)
    &&& fields@.len() == 1
    &&& fields@[0].0@ == "misc"@
    &&& fields@[0].1 matches Json::Str(s) && s@ == misc
}

/// Whether an error-description lookup output carries a recoverable
/// description: a text `desc` field that hex-decodes to valid UTF-8.
pub open spec fn desc_recoverable(o: Json) -> bool {
    match as_text_spec(spec_get(o, "desc"@)) {
        Some(h) => hex_valid(h) && utf8_decoding(hex_decode_seq(h)) is Some,
        None => false,
    }
}

/// The user-visible message of a contract exception, given the output of
/// the `getErrorDescription` lookup (when the lookup succeeded) and the
/// service's raw inner message: the decoded description exactly when it is
/// recoverable, the raw message otherwise.
pub fn describe_error(lookup: Option<&Json>, fallback: String) -> (r: String)
    ensures
        match lookup {
            Some(o) => {
                if desc_recoverable(*o) {
                    Some(r@) == utf8_decoding(
                        hex_decode_seq(as_text_spec(spec_get(*o, "desc"@))->0),
                    )
                } else {
                    r@ == fallback@
                }
            },
            None => r@ == fallback@,
        },
{
    match lookup {
        None => fallback,
        Some(o) => match o.get("desc").as_str() {
            None => fallback,
            Some(h) => match str_hex_to_utf8(h.as_str()) {
                Some(t) => t,
                None => fallback,
            },
        },
    }
}

/// The session engine.  Generic over the call service, the front end and
/// the routine registry, which its owner supplies at construction.
pub struct DEngine<B: BrowserCallbacks, S: CallService, R: RoutineRegistry> {
    /// The self contract's interface description.
    pub abi: String,
    /// The self contract's address.
    pub addr: TonAddr,
    /// The call service.
    pub ton: S,
    /// The session state: the self account snapshot as last observed.
    pub state: Json,
    /// The fetched context graph.
    pub state_machine: Vec<DContext>,
    /// The id of the last successfully entered context, or the exit
    /// sentinel.
    pub curr_state: StateId,
    /// The id entered immediately before that, or the exit sentinel.
    pub prev_state: StateId,
    /// The target contract's address, when configured.
    pub target_addr: Option<TonAddr>,
    /// The target contract's interface description, when configured.
    pub target_abi: Option<String>,
    /// The front end.
    pub browser: B,
    /// The routine registry.
    pub routines: R,
    /// The ceiling on chained instant transitions: exceeding it fails
    /// loudly instead of looping forever.
    pub chain_limit: u32,
}

/// The default ceiling on chained instant transitions.
pub const DEFAULT_CHAIN_LIMIT: u32 = 100;

impl<B: BrowserCallbacks, S: CallService, R: RoutineRegistry> DEngine<B, S, R> {
    /// The engine's control state is settled: no unresolved sentinel is
    /// ever stored as current or previous state.
    pub open spec fn wf(self) -> bool {
        self.curr_state.is_settled() && self.prev_state.is_settled()
    }

    /// The views of the fetched context graph.
    pub open spec fn graph(self) -> Seq<ContextView> {
        context_views(self.state_machine@)
    }

    /// The current state points at the exit sentinel or at a context
    /// present in the graph: the session invariant that a transition may
    /// never break.
    pub open spec fn curr_in_graph(self) -> bool {
        match self.curr_state {
            StateId::Exit => true,
            StateId::Id(n) => graph_has_id(self.state_machine@, n),
            _ => false,
        }
    }

    /// Build an engine over the given collaborators.  The owner should
    /// supply the session contract's interface text: the built-in default
    /// interface of the wider system is not part of this crate, so a
    /// missing description falls back to the empty one, `{}`, until
    /// `fetch` replaces it through the option bitmask.
    pub fn new_with_client(addr: TonAddr, abi: Option<String>, ton: S, browser: B, routines: R)
        -> (r: DEngine<B, S, R>)
        ensures
            r.wf(),
            r.curr_state == StateId::Exit,
            r.prev_state == StateId::Id(0u8),
            r.state_machine@.len() == 0,
            r.target_addr is None,
            r.target_abi is None,
            r.addr.text@ == addr.text@,
            (match abi {
                Some(a) => r.abi@ == a@,
                None => r.abi@ == "{}"@,
            }),
            r.state matches Json::Obj(fields) && fields@.len() == 0,
            r.chain_limit == DEFAULT_CHAIN_LIMIT,
    {
        DEngine {
            abi: match abi {
                Some(a) => a,
                None => String::from_str("{}"),
            },
            addr,
            ton,
            state: obj_empty(),
            state_machine: Vec::new(),
            curr_state: StateId::Exit,
            prev_state: StateId::Id(0),
            target_addr: None,
            target_abi: None,
            browser,
            routines,
            chain_limit: DEFAULT_CHAIN_LIMIT,
        }
    }

    /// The configured target contract, failing when either half is absent.
    pub fn get_target(&self) -> (r: Result<(&TonAddr, &String), String>)
        ensures
            r is Ok <==> (self.target_addr is Some && self.target_abi is Some),
            r matches Ok(p) ==> ({
                &&& (match self.target_addr {
                    Some(a) => p.0.text@ == a.text@,
                    None => false,
                })
                &&& (match self.target_abi {
                    Some(b) => p.1@ == b@,
                    None => false,
                })
            }),
    {
        let addr = match &self.target_addr {
            Some(a) => a,
            None => {
                return Err(String::from_str("target address is undefined"));
            },
        };
        let abi = match &self.target_abi {
            Some(a) => a,
            None => {
                return Err(String::from_str("target abi is undefined"));
            },
        };
        Ok((addr, abi))
    }

    /// Choose a call's destination and interface description: the self
    /// pair, or the configured target pair — failing exactly when the
    /// target is addressed but not configured.
    fn route(&self, is_target: bool) -> (r: Result<(TonAddr, String), String>)
        ensures
            match r {
                Ok(p) => ({
                    &&& (!is_target ==> p.0.text@ == self.addr.text@ && p.1@ == self.abi@)
                    &&& (is_target ==> (match self.target_addr {
                        Some(a) => p.0.text@ == a.text@,
                        None => false,
                    }) && (match self.target_abi {
                        Some(b) => p.1@ == b@,
                        None => false,
                    }))
                }),
                Err(_) => is_target && (self.target_addr is None || self.target_abi is None),
            },
    {
        if is_target {
            let a = match &self.target_addr {
                Some(a) => a.dup(),
                None => {
                    return Err(String::from_str("target address is undefined"));
                },
            };
            let b = match &self.target_abi {
                Some(b) => b.clone(),
                None => {
                    return Err(String::from_str("target abi is undefined"));
                },
            };
            Ok((a, b))
        } else {
            Ok((self.addr.dup(), self.abi.clone()))
        }
    }

    /// Issue one simulated call, without error classification.
    fn run_raw(
        &mut self,
        is_target: bool,
        func: &str,
        args: Option<Json>,
        with_state: bool,
        emulate: bool,
    ) -> (r: Result<RunOutput, ServiceError>)
        requires
            is_target ==> old(self).target_addr is Some && old(self).target_abi is Some,
        ensures
            final(self).curr_state == old(self).curr_state,
            final(self).prev_state == old(self).prev_state,
            final(self).state_machine == old(self).state_machine,
            final(self).state == old(self).state,
            final(self).abi == old(self).abi,
            final(self).addr == old(self).addr,
            final(self).target_addr == old(self).target_addr,
            final(self).target_abi == old(self).target_abi,
            final(self).chain_limit == old(self).chain_limit,
    {
        let (addr, abi) = match self.route(is_target) {
            Ok(p) => p,
            Err(_) => {
                proof {
                    assert(false);
                }
                return Err(ServiceError::Other(String::new()));
            },
        };
        let args_val = args_or_empty(args);
        let state = if with_state {
            Some(&self.state)
        } else {
            None
        };
        self.ton.run_local(&addr, state, abi.as_str(), func, &args_val, emulate)
    }

    /// Classify a service failure into a user-visible message: a known
    /// wrong-format message becomes "invalid parameter"; a contract
    /// exception is described through a secondary `getErrorDescription`
    /// lookup when possible (see `describe_error`); everything else keeps
    /// its original message.
    pub fn handle_sdk_err(&mut self, err: ServiceError) -> (r: String)
        ensures
            final(self).curr_state == old(self).curr_state,
            final(self).prev_state == old(self).prev_state,
            final(self).state_machine == old(self).state_machine,
            final(self).state == old(self).state,
            final(self).chain_limit == old(self).chain_limit,
            final(self).abi == old(self).abi,
            final(self).addr == old(self).addr,
            final(self).target_addr == old(self).target_addr,
            final(self).target_abi == old(self).target_abi,
            err matches ServiceError::Other(m) ==> r@ == m@,
            err matches ServiceError::Inner { message, code, data } ==> ({
                &&& (contains_seq(message@, "Wrong data format"@) ==> r@
                    == "invalid parameter"@)
                &&& (!contains_seq(message@, "Wrong data format"@) && code != 3025 ==> r@
                    == message@)
                &&& (!contains_seq(message@, "Wrong data format"@) && as_int_spec(
                    spec_get(data, "exit_code"@),
                ) is None ==> r@ == message@)
            }),
    {
        match err {
            ServiceError::Other(m) => m,
            ServiceError::Inner { message, code, data } => {
                if crate::strutil::contains_sub(message.as_str(), "Wrong data format") {
                    String::from_str("invalid parameter")
                } else if code == 3025 {
                    match data.get("exit_code").as_i64() {
                        Some(exit_code) => {
                            let args = obj1_int("error", exit_code);
                            let lookup = self.run_raw(
                                false,
                                "getErrorDescription",
                                Some(args),
                                true,
                                false,
                            );
                            match lookup {
                                Ok(res) => describe_error(Some(&res.output), message),
                                Err(_) => describe_error(None, message),
                            }
                        },
                        None => message,
                    }
                } else {
                    message
                }
            },
        }
    }

    /// Issue one simulated call, classifying any failure (see
    /// `handle_sdk_err`).  Fails up front when the target contract is
    /// addressed but not configured.
    pub fn run(
        &mut self,
        is_target: bool,
        func: &str,
        args: Option<Json>,
        with_state: bool,
        emulate: bool,
    ) -> (r: Result<RunOutput, String>)
        ensures
            final(self).curr_state == old(self).curr_state,
            final(self).prev_state == old(self).prev_state,
            final(self).state_machine == old(self).state_machine,
            final(self).state == old(self).state,
            final(self).chain_limit == old(self).chain_limit,
            final(self).abi == old(self).abi,
            final(self).addr == old(self).addr,
            final(self).target_addr == old(self).target_addr,
            final(self).target_abi == old(self).target_abi,
            is_target && !(old(self).target_addr is Some && old(self).target_abi is Some)
                ==> r is Err,
    {
        if is_target {
            match self.get_target() {
                Ok(_) => (),
                Err(e) => {
                    return Err(e);
                },
            }
        }
        match self.run_raw(is_target, func, args, with_state, emulate) {
            Ok(res) => Ok(res),
            Err(e) => Err(self.handle_sdk_err(e)),
        }
    }

    /// A plain read of the self contract, with session state attached.
    fn run_get(&mut self, name: &str) -> (r: Result<RunOutput, String>)
        ensures
            final(self).curr_state == old(self).curr_state,
            final(self).prev_state == old(self).prev_state,
            final(self).state_machine == old(self).state_machine,
            final(self).state == old(self).state,
            final(self).chain_limit == old(self).chain_limit,
            final(self).abi == old(self).abi,
            final(self).addr == old(self).addr,
            final(self).target_addr == old(self).target_addr,
            final(self).target_abi == old(self).target_abi,
    {
        self.run(false, name, None, true, false)
    }

    /// A mutating call of the self contract, simulated: on success the
    /// session state is overwritten with the returned account snapshot —
    /// the sole mechanism by which local state tracks simulated remote
    /// mutations.  A call that returns no snapshot fails.
    fn run_debot(&mut self, name: &str, args: Option<Json>) -> (r: Result<Json, String>)
        ensures
            final(self).curr_state == old(self).curr_state,
            final(self).prev_state == old(self).prev_state,
            final(self).state_machine == old(self).state_machine,
            final(self).chain_limit == old(self).chain_limit,
            final(self).abi == old(self).abi,
            final(self).addr == old(self).addr,
            final(self).target_addr == old(self).target_addr,
            final(self).target_abi == old(self).target_abi,
            r is Err ==> final(self).state == old(self).state,
    {
        let res = match self.run(false, name, args, true, true) {
            Ok(res) => res,
            Err(e) => {
                return Err(e);
            },
        };
        match res.account {
            Some(acc) => {
                self.state = acc;
                Ok(res.output)
            },
            None => Err(String::from_str("call returned no account snapshot")),
        }
    }

    /// Apply a fetched option bitmask: bit 1 replaces the self interface
    /// description, bit 2 the target interface description, bit 4 the
    /// target address; each bit is independent and an unset bit leaves its
    /// field unchanged.
    pub fn apply_options(&mut self, output: &Json) -> (r: Result<(), String>)
        ensures
            final(self).curr_state == old(self).curr_state,
            final(self).prev_state == old(self).prev_state,
            final(self).state_machine == old(self).state_machine,
            final(self).state == old(self).state,
            final(self).chain_limit == old(self).chain_limit,
            r is Ok <==> options_applicable(*output),
            match options_mask(*output) {
                None => r is Err && *final(self) == *old(self),
                Some(m) => {
                    &&& (m & 1 == 0 ==> final(self).abi == old(self).abi)
                    &&& (m & 2 == 0 ==> final(self).target_abi == old(self).target_abi)
                    &&& (m & 4 == 0 ==> final(self).target_addr == old(self).target_addr)
                    &&& (r is Ok && m & 1 != 0 ==> (match as_text_spec(
                        spec_get(*output, "debotAbi"@),
                    ) {
                        Some(h) => Some(final(self).abi@) == utf8_decoding(hex_decode_seq(h)),
                        None => false,
                    }))
                    &&& (r is Ok && m & 2 != 0 ==> (match as_text_spec(
                        spec_get(*output, "targetAbi"@),
                    ) {
                        Some(h) => if hex_valid(h) && utf8_decoding(hex_decode_seq(h))
                            is Some {
                            ({
                                &&& final(self).target_abi matches Some(a)
                                &&& Some(a@) == utf8_decoding(hex_decode_seq(h))
                            })
                        } else {
                            final(self).target_abi is None
                        },
                        None => false,
                    }))
                    &&& (r is Ok && m & 4 != 0 ==> (match as_text_spec(
                        spec_get(*output, "targetAddr"@),
                    ) {
                        Some(a) => final(self).target_addr matches Some(t) && t.text@ == a
                            && addr_valid(a),
                        None => false,
                    }))
                },
            },
    {
        let mask = match self.read_options_mask(output) {
            Some(m) => m,
            None => {
                return Err(String::from_str("invalid options in result"));
            },
        };
        if mask & 1 != 0 {
            let h = match output.get("debotAbi").as_str() {
                Some(h) => h.clone(),
                None => {
                    return Err(String::from_str("cannot convert hex string to debot abi"));
                },
            };
            match str_hex_to_utf8(h.as_str()) {
                Some(t) => {
                    self.abi = t;
                },
                None => {
                    return Err(String::from_str("cannot convert hex string to debot abi"));
                },
            }
        }
        if mask & 2 != 0 {
            let h = match output.get("targetAbi").as_str() {
                Some(h) => h.clone(),
                None => {
                    return Err(String::from_str("cannot convert hex string to target abi"));
                },
            };
            self.target_abi = str_hex_to_utf8(h.as_str());
        }
        if mask & 4 != 0 {
            let a = match output.get("targetAddr").as_str() {
                Some(a) => a.clone(),
                None => {
                    return Err(String::from_str("invalid target address in result"));
                },
            };
            match load_ton_address(a.as_str()) {
                Ok(t) => {
                    self.target_addr = Some(t);
                },
                Err(e) => {
                    return Err(e);
                },
            }
        }
        Ok(())
    }

    /// Read the option bitmask from a `getDebotOptions` output: a text
    /// `options` field holding a hex number no wider than a byte, with an
    /// optional `0x` prefix.
    fn read_options_mask(&self, output: &Json) -> (r: Option<u8>)
        ensures
            r == options_mask(*output),
    {
        let h = match output.get("options").as_str() {
            Some(h) => h,
            None => {
                return None;
            },
        };
        let n = h.as_str().unicode_len();
        let start: usize = if n >= 2 && h.as_str().get_char(0) == '0' && h.as_str().get_char(1)
            == 'x' {
            2
        } else {
            0
        };
        match parse_hex_u64(h.as_str(), start) {
            Some(v) => if v <= 255 {
                Some(v as u8)
            } else {
                None
            },
            None => None,
        }
    }

    /// Fetch the self contract's options and apply them (see
    /// `apply_options`).
    fn update_options(&mut self) -> (r: Result<(), String>)
        ensures
            final(self).curr_state == old(self).curr_state,
            final(self).prev_state == old(self).prev_state,
            final(self).state_machine == old(self).state_machine,
            final(self).state == old(self).state,
            final(self).chain_limit == old(self).chain_limit,
    {
        let params = match self.run_get("getDebotOptions") {
            Ok(p) => p,
            Err(e) => {
                return Err(e);
            },
        };
        self.apply_options(&params.output)
    }

    /// Load the self contract's name and version, log them, remember the
    /// account snapshot, and apply the option bitmask.
    fn load_state(&mut self) -> (r: Result<(), String>)
        ensures
            final(self).curr_state == old(self).curr_state,
            final(self).prev_state == old(self).prev_state,
            final(self).state_machine == old(self).state_machine,
            final(self).chain_limit == old(self).chain_limit,
    {
        let result = match self.run(false, "getVersion", None, false, true) {
            Ok(r) => r,
            Err(e) => {
                let mut m = String::from_str("failed to fetch debot state: ");
                m.append(e.as_str());
                return Err(m);
            },
        };
        let line = match version_line(&result.output) {
            Ok(l) => l,
            Err(e) => {
                return Err(e);
            },
        };
        match result.account {
            Some(acc) => {
                self.state = acc;
            },
            None => {
                return Err(String::from_str("call returned no account snapshot"));
            },
        }
        self.browser.log(line);
        self.update_options()
    }

    /// Load state, then fetch and decode the context graph.
    fn fetch_state(&mut self) -> (r: Result<Vec<DContext>, String>)
        ensures
            final(self).curr_state == old(self).curr_state,
            final(self).prev_state == old(self).prev_state,
            final(self).state_machine == old(self).state_machine,
            final(self).chain_limit == old(self).chain_limit,
    {
        match self.load_state() {
            Ok(_) => (),
            Err(e) => {
                return Err(e);
            },
        }
        let result = match self.run_get("fetch") {
            Ok(r) => r,
            Err(e) => {
                return Err(e);
            },
        };
        match parse_contexts(result.output.get("contexts")) {
            Some(cs) => Ok(cs),
            None => Err(String::from_str("invalid contexts in result")),
        }
    }

    /// Fetch the context graph and reset the previous state to the exit
    /// sentinel.
    pub fn fetch(&mut self) -> (r: Result<(), String>)
        requires
            old(self).wf(),
        ensures
            final(self).wf(),
            r is Ok ==> final(self).prev_state == StateId::Exit,
            final(self).curr_state == old(self).curr_state,
            r is Err ==> final(self).state_machine == old(self).state_machine
                && final(self).prev_state == old(self).prev_state,
    {
        let sm = match self.fetch_state() {
            Ok(sm) => sm,
            Err(e) => {
                return Err(e);
            },
        };
        self.state_machine = sm;
        self.prev_state = StateId::Exit;
        Ok(())
    }

    /// Fetch the context graph, then force entry into the initial context.
    pub fn start(&mut self) -> (r: Result<(), String>)
        requires
            old(self).wf(),
        ensures
            final(self).wf(),
            r is Ok && graph_no_instants(final(self).graph()) && graph_has_id(
                final(self).state_machine@,
                0u8,
            ) ==> final(self).curr_state == StateId::Id(0u8),
    {
        match self.fetch() {
            Ok(_) => (),
            Err(e) => {
                return Err(e);
            },
        }
        self.switch_state(StateId::Id(STATE_ZERO), true)
    }

    /// The self contract's version document.
    pub fn version(&mut self) -> (r: Result<String, String>)
        ensures
            final(self).curr_state == old(self).curr_state,
            final(self).prev_state == old(self).prev_state,
            final(self).state_machine == old(self).state_machine,
            final(self).state == old(self).state,
            final(self).chain_limit == old(self).chain_limit,
            final(self).abi == old(self).abi,
            final(self).addr == old(self).addr,
            final(self).target_addr == old(self).target_addr,
            final(self).target_abi == old(self).target_abi,
    {
        match self.run_get("getVersion") {
            Ok(res) => Ok(res.output.to_text()),
            Err(e) => Err(e),
        }
    }

    /// Resolve the arguments of a mutating call: a non-sentinel `misc`
    /// value is passed through verbatim as `{"misc": <value>}` and nothing
    /// is asked of the user; otherwise the declared inputs of the function
    /// are read from the interface description and collected one by one
    /// from the front end.
    pub fn query_action_args(&mut self, act: &DAction) -> (r: Result<Option<Json>, String>)
        ensures
            final(self).curr_state == old(self).curr_state,
            final(self).prev_state == old(self).prev_state,
            final(self).state_machine == old(self).state_machine,
            final(self).state == old(self).state,
            final(self).chain_limit == old(self).chain_limit,
            act.misc@ != empty_cell_text() ==> (match r {
                Ok(a) => a matches Some(v) && is_misc_obj(v, act.misc@),
                Err(_) => false,
            }),
            act.misc@ == empty_cell_text() ==> ({
                let parsed = crate::codec::json_parsing(old(self).abi@);
                &&& (parsed is None ==> r is Err && *final(self) == *old(self))
                &&& (match parsed {
                    Some(av) => {
                        &&& (!(spec_get(av, "functions"@) is Arr) ==> r is Err && *final(self)
                            == *old(self))
                        &&& (match spec_get(av, "functions"@) {
                            Json::Arr(fs) => {
                                &&& (!functions_named(fs@, act.name@) ==> r is Err
                                    && *final(self) == *old(self))
                                &&& (match first_named(fs@, act.name@) {
                                    Some(fdecl) => {
                                        &&& (!(spec_get(fdecl, "inputs"@) is Arr) ==> r is Err)
                                        &&& (match spec_get(fdecl, "inputs"@) {
                                            Json::Arr(ins) => {
                                                &&& (!inputs_wf(ins@) ==> r is Err)
                                                &&& (inputs_wf(ins@) ==> ({
                                                    &&& r matches Ok(a)
                                                    &&& a matches Some(v)
                                                    &&& args_match_inputs(v, ins@)
                                                }))
                                            },
                                            _ => true,
                                        })
                                    },
                                    None => true,
                                })
                            },
                            _ => true,
                        })
                    },
                    None => true,
                })
            }),
    {
        if !str_eq(act.misc.as_str(), empty_cell()) {
            return Ok(Some(obj1_text("misc", &act.misc)));
        }
        let abi_json = match crate::codec::parse_json(self.abi.as_str()) {
            Some(v) => v,
            None => {
                return Err(String::from_str("invalid debot ABI"));
            },
        };
        let functions = match abi_json.get("functions") {
            Json::Arr(fs) => fs,
            _ => {
                return Err(String::from_str("invalid debot ABI"));
            },
        };
        let nf = functions.len();
        let mut fi: usize = 0;
        let mut found: Option<usize> = None;
        while fi < nf
            invariant
                fi <= nf,
                nf == functions@.len(),
                *self == *old(self),
                act.misc@ == empty_cell_text(),
                crate::codec::json_parsing(old(self).abi@) matches Some(av) && (match spec_get(
                    av,
                    "functions"@,
                ) {
                    Json::Arr(fs) => fs@ == functions@,
                    _ => false,
                }),
                match found {
                    Some(i) => i < nf && as_text_spec(spec_get(functions@[i as int], "name"@))
                        == Some(act.name@) && (forall|j: int| 0 <= j < i ==> as_text_spec(
                        spec_get(#[trigger] functions@[j], "name"@),
                    ) != Some(act.name@)),
                    None => true,
                },
                found is None ==> !functions_named(functions@.subrange(0, fi as int), act.name@),
            decreases nf - fi,
        {
            if found.is_none() {
                let matched = match functions[fi].get("name").as_str() {
                    Some(fname) => str_eq(fname.as_str(), act.name.as_str()),
                    None => false,
                };
                if matched {
                    proof {
                        assert forall|j: int| 0 <= j < fi implies as_text_spec(spec_get(
                            #[trigger] functions@[j],
                            "name"@,
                        )) != Some(act.name@) by {
                            assert(functions@.subrange(0, fi as int)[j] == functions@[j]);
                        }
                    }
                    found = Some(fi);
                } else {
                    proof {
                        assert(!functions_named(functions@.subrange(0, fi + 1), act.name@))
                            by {
                            assert forall|j: int| 0 <= j < fi + 1 implies as_text_spec(
                                spec_get(
                                    #[trigger] functions@.subrange(0, fi + 1)[j],
                                    "name"@,
                                ),
                            ) != Some(act.name@) by {
                                assert(functions@.subrange(0, fi + 1)[j] == functions@[j]);
                                if j < fi {
                                    assert(functions@.subrange(0, fi as int)[j]
                                        == functions@[j]);
                                }
                            }
                        }
                    }
                }
            }
            fi = fi + 1;
        }
        let func_idx = match found {
            Some(i) => i,
            None => {
                proof {
                    assert(functions@.subrange(0, nf as int) =~= functions@);
                    lemma_unnamed_no_first(functions@, act.name@);
                }
                return Err(String::from_str("action not found"));
            },
        };
        proof {
            assert(functions_named(functions@, act.name@));
            lemma_first_named_at(functions@, act.name@, func_idx as int);
        }
        let inputs = match functions[func_idx].get("inputs") {
            Json::Arr(args) => args,
            _ => {
                return Err(String::from_str("invalid debot ABI"));
            },
        };
        let na = inputs.len();
        let mut fields: Vec<(String, Json)> = Vec::new();
        let mut ai: usize = 0;
        let mut prompts: Vec<(String, bool)> = Vec::new();
        while ai < na
            invariant
                ai <= na,
                na == inputs@.len(),
                *self == *old(self),
                act.misc@ == empty_cell_text(),
                crate::codec::json_parsing(old(self).abi@) matches Some(av) && (match spec_get(
                    av,
                    "functions"@,
                ) {
                    Json::Arr(fs) => functions_named(fs@, act.name@) && (match first_named(
                        fs@,
                        act.name@,
                    ) {
                        Some(fdecl) => (match spec_get(fdecl, "inputs"@) {
                            Json::Arr(iv) => iv@ == inputs@,
                            _ => false,
                        }),
                        None => false,
                    }),
                    _ => false,
                }),
                prompts@.len() == ai,
                forall|k: int| 0 <= k < ai ==> as_text_spec(spec_get(
                    #[trigger] inputs@[k],
                    "name"@,
                )) == Some(prompts@[k].0@) && prompts@[k].1 == input_is_bytes(inputs@[k]),
            decreases na - ai,
        {
            let arg_name = match inputs[ai].get("name").as_str() {
                Some(n) => n.clone(),
                None => {
                    proof {
                        assert(!input_wf(inputs@[ai as int]));
                    }
                    return Err(String::from_str("invalid debot ABI"));
                },
            };
            let is_bytes = match inputs[ai].get("type").as_str() {
                Some(t) => str_eq(t.as_str(), "bytes"),
                None => false,
            };
            prompts.push((arg_name, is_bytes));
            ai = ai + 1;
        }
        let np = prompts.len();
        let mut pi: usize = 0;
        while pi < np
            invariant
                pi <= np,
                np == prompts@.len(),
                np == inputs@.len(),
                act.misc@ == empty_cell_text(),
                crate::codec::json_parsing(old(self).abi@) matches Some(av) && (match spec_get(
                    av,
                    "functions"@,
                ) {
                    Json::Arr(fs) => functions_named(fs@, act.name@) && (match first_named(
                        fs@,
                        act.name@,
                    ) {
                        Some(fdecl) => (match spec_get(fdecl, "inputs"@) {
                            Json::Arr(iv) => iv@ == inputs@,
                            _ => false,
                        }),
                        None => false,
                    }),
                    _ => false,
                }),
                forall|k: int| 0 <= k < np ==> as_text_spec(spec_get(
                    #[trigger] inputs@[k],
                    "name"@,
                )) == Some(prompts@[k].0@) && prompts@[k].1 == input_is_bytes(inputs@[k]),
                fields@.len() == pi,
                forall|k: int| 0 <= k < pi ==> (#[trigger] fields@[k]).0@ == prompts@[k].0@
                    && (match fields@[k].1 {
                    Json::Str(t) => prompts@[k].1 ==> hex_valid(t@),
                    _ => false,
                }),
                self.curr_state == old(self).curr_state,
                self.prev_state == old(self).prev_state,
                self.state_machine == old(self).state_machine,
                self.state == old(self).state,
                self.chain_limit == old(self).chain_limit,
            decreases np - pi,
        {
            let value = self.browser.input("");
            let encoded: Json;
            if prompts[pi].1 {
                let bs = value.as_str().as_bytes();
                proof {
                    crate::codec::lemma_hex_roundtrip(bs@);
                }
                encoded = Json::Str(crate::codec::hex_encode(bs));
            } else {
                encoded = Json::Str(value);
            }
            fields.push((prompts[pi].0.clone(), encoded));
            pi = pi + 1;
        }
        let args = Json::Obj(fields);
        proof {
            assert(args_match_inputs(args, inputs@));
        }
        Ok(Some(args))
    }

    /// Execute a mutating call: resolve arguments, run the call, and decode
    /// any follow-up actions from the output's `actions` field.
    fn run_action(&mut self, act: &DAction) -> (r: Result<Option<Vec<DAction>>, String>)
        ensures
            final(self).curr_state == old(self).curr_state,
            final(self).prev_state == old(self).prev_state,
            final(self).state_machine == old(self).state_machine,
            final(self).chain_limit == old(self).chain_limit,
    {
        let args = match self.query_action_args(act) {
            Ok(a) => a,
            Err(e) => {
                return Err(e);
            },
        };
        let output = match self.run_debot(act.name.as_str(), args) {
            Ok(o) => o,
            Err(e) => {
                return Err(e);
            },
        };
        decode_follow_ups(&output)
    }

    /// Run a message-sending action: run the self function to obtain
    /// destination, body and optional initial state; decode the body
    /// against the matching interface description (the self one when the
    /// destination is the self address, the target one otherwise); then
    /// construct and submit the message.
    fn run_sendmsg(&mut self, name: &str, args: Option<Json>, keys: Option<KeyPair>) -> (r: Result<
        Json,
        String,
    >)
        ensures
            final(self).curr_state == old(self).curr_state,
            final(self).prev_state == old(self).prev_state,
            final(self).state_machine == old(self).state_machine,
            final(self).chain_limit == old(self).chain_limit,
    {
        let result = match self.run_debot(name, args) {
            Ok(o) => o,
            Err(e) => {
                return Err(e);
            },
        };
        let plan = match plan_sendmsg(&result, &self.addr, &self.abi, &self.target_abi) {
            Ok(p) => p,
            Err(e) => {
                return Err(e);
            },
        };
        let decoded = match self.ton.decode_input_body(plan.abi.as_str(), &plan.body) {
            Ok(d) => d,
            Err(_) => {
                return Err(String::from_str("failed to decode msg body"));
            },
        };
        self.call_target(plan.dest, plan.abi.as_str(), decoded.function.as_str(), decoded.args,
            keys, plan.state)
    }

    /// Construct a message, attach any initial state, submit it and return
    /// the decoded output.
    fn call_target(
        &mut self,
        dest: TonAddr,
        abi: &str,
        func: &str,
        args: Json,
        keys: Option<KeyPair>,
        state: Option<Vec<u8>>,
    ) -> (r: Result<Json, String>)
        ensures
            final(self).curr_state == old(self).curr_state,
            final(self).prev_state == old(self).prev_state,
            final(self).state_machine == old(self).state_machine,
            final(self).chain_limit == old(self).chain_limit,
    {
        let msg = match self.ton.create_message(&dest, abi, func, &args, keys.as_ref()) {
            Ok(m) => m,
            Err(_) => {
                return Err(String::from_str("failed to create message"));
            },
        };
        let msg = match state {
            Some(bytes) => match self.ton.attach_state(msg, bytes) {
                Ok(m) => m,
                Err(e) => {
                    return Err(e);
                },
            },
            None => msg,
        };
        let mut m = String::from_str("sending message ");
        m.append(msg.message_id.as_str());
        self.browser.log(m);
        match self.ton.submit_message(msg, abi, func) {
            Ok(output) => Ok(output),
            Err(e) => Err(self.handle_sdk_err(e)),
        }
    }

    /// Run a read-only get-method on the target contract, after refreshing
    /// the self contract's options, and feed its output to the named
    /// result-handler function on self.
    fn run_getmethod(&mut self, getmethod: &str, args: Option<Json>, result_handler: &str) -> (r:
        Result<Json, String>)
        ensures
            final(self).curr_state == old(self).curr_state,
            final(self).prev_state == old(self).prev_state,
            final(self).state_machine == old(self).state_machine,
            final(self).chain_limit == old(self).chain_limit,
    {
        match self.update_options() {
            Ok(_) => (),
            Err(e) => {
                return Err(e);
            },
        }
        let result = match self.run(true, getmethod, args, false, false) {
            Ok(r) => r,
            Err(e) => {
                return Err(e);
            },
        };
        self.run_debot(result_handler, Some(result.output))
    }

    /// Execute one action according to its kind (see the dispatcher table
    /// in the crate documentation).  The control state — current and
    /// previous state and the context graph — is never touched here; any
    /// follow-up actions come only from a mutating-call action.
    pub fn handle_action(&mut self, a: &DAction) -> (r: Result<Option<Vec<DAction>>, String>)
        ensures
            final(self).curr_state == old(self).curr_state,
            final(self).prev_state == old(self).prev_state,
            final(self).state_machine == old(self).state_machine,
            final(self).chain_limit == old(self).chain_limit,
            match r {
                Ok(follow) => follow is Some ==> a.kind == ActionKind::RunAction,
                Err(_) => true,
            },
            a.kind == ActionKind::Empty || a.kind == ActionKind::Goto ==> ({
                &&& r matches Ok(f) && f is None
                &&& *final(self) == *old(self)
            }),
            a.kind == ActionKind::Unsupported ==> r is Err,
            a.kind == ActionKind::Print && a.attrs.fargs is None ==> (r matches Ok(f) && f
                is None),
            a.kind == ActionKind::CallEngine && a.attrs.func is None ==> r is Err,
            a.kind == ActionKind::RunMethod && a.attrs.func is None ==> r is Err,
    {
        match a.kind {
            ActionKind::Empty => Ok(None),
            ActionKind::RunAction => self.run_action(a),
            ActionKind::RunMethod => {
                let args = match &a.attrs.args {
                    Some(getter) => {
                        let getter = getter.clone();
                        match self.run_debot(getter.as_str(), None) {
                            Ok(res) => Some(res),
                            Err(e) => {
                                return Err(e);
                            },
                        }
                    },
                    None => None,
                };
                let method = match &a.attrs.func {
                    Some(f) => f.clone(),
                    None => {
                        return Err(String::from_str("get-method name is not specified"));
                    },
                };
                match self.run_getmethod(method.as_str(), args, a.name.as_str()) {
                    Ok(_) => Ok(None),
                    Err(e) => Err(e),
                }
            },
            ActionKind::SendMsg => {
                let keys = if a.attrs.sign_by_user {
                    Some(self.browser.load_key())
                } else {
                    None
                };
                let args = if !str_eq(a.misc.as_str(), empty_cell()) {
                    Some(obj1_text("misc", &a.misc))
                } else {
                    None
                };
                let result = match self.run_sendmsg(a.name.as_str(), args, keys) {
                    Ok(r) => r,
                    Err(e) => {
                        return Err(e);
                    },
                };
                self.browser.log(String::from_str("Transaction succeeded."));
                if !result.is_null() {
                    let mut m = String::from_str("Result: ");
                    m.append(result.to_text().as_str());
                    self.browser.log(m);
                }
                Ok(None)
            },
            ActionKind::Invoke => {
                let invoke_args = match self.run_debot(a.name.as_str(), None) {
                    Ok(o) => o,
                    Err(e) => {
                        return Err(e);
                    },
                };
                let debot_addr = match invoke_args.get("debot").as_str() {
                    Some(d) => match load_ton_address(d.as_str()) {
                        Ok(addr) => addr,
                        Err(e) => {
                            return Err(e);
                        },
                    },
                    None => {
                        return Err(String::from_str("no debot address in result"));
                    },
                };
                let debot_action = match parse_action(invoke_args.get("action")) {
                    Some(act) => act,
                    None => {
                        return Err(String::from_str("invalid invoke action in result"));
                    },
                };
                match self.browser.invoke_debot(debot_addr, debot_action) {
                    Ok(_) => Ok(None),
                    Err(e) => Err(e),
                }
            },
            ActionKind::Print => {
                let label = match &a.attrs.fargs {
                    Some(getter) => {
                        let getter = getter.clone();
                        let args = if !str_eq(a.misc.as_str(), empty_cell()) {
                            Some(obj1_text("misc", &a.misc))
                        } else {
                            None
                        };
                        let params = match self.run_debot(getter.as_str(), args) {
                            Ok(p) => p,
                            Err(e) => {
                                return Err(e);
                            },
                        };
                        format_string(a.name.as_str(), &params)
                    },
                    None => a.name.clone(),
                };
                self.browser.log(label);
                Ok(None)
            },
            ActionKind::Goto => Ok(None),
            ActionKind::CallEngine => {
                let args_text = match &a.attrs.args {
                    Some(getter) => {
                        let getter = getter.clone();
                        match self.run_debot(getter.as_str(), None) {
                            Ok(res) => res.to_text(),
                            Err(e) => {
                                return Err(e);
                            },
                        }
                    },
                    None => a.desc.clone(),
                };
                let keys = if a.attrs.sign_by_user {
                    Some(self.browser.load_key())
                } else {
                    None
                };
                let res = match self.routines.invoke_routine(a.name.as_str(), args_text.as_str(),
                    keys) {
                    Ok(r) => r,
                    Err(e) => {
                        return Err(e);
                    },
                };
                let setter = match &a.attrs.func {
                    Some(f) => f.clone(),
                    None => {
                        return Err(String::from_str("routine callback is not specified"));
                    },
                };
                match self.run_debot(setter.as_str(), Some(obj1_text("arg1", &res))) {
                    Ok(_) => Ok(None),
                    Err(e) => Err(e),
                }
            },
            ActionKind::Unsupported => {
                let m = String::from_str("unsupported action type");
                self.browser.log(m.clone());
                Err(m)
            },
        }
    }

    /// Process a context's actions on entry: instant actions run at once
    /// (breadth-first with the follow-up actions they return), engine-only
    /// actions run without interaction, and interactive actions are handed
    /// to the front end.  Returns whether an instant action requested an
    /// immediate transition; the remaining actions are then abandoned.
    fn enumerate_actions(&mut self, ctx: &DContext) -> (r: Result<bool, String>)
        requires
            old(self).wf(),
        ensures
            final(self).wf(),
            final(self).prev_state == old(self).prev_state,
            final(self).state_machine == old(self).state_machine,
            final(self).chain_limit == old(self).chain_limit,
            match r {
                Ok(true) => final(self).curr_state != old(self).curr_state
                    && final(self).curr_state.is_settled(),
                _ => final(self).curr_state == old(self).curr_state,
            },
            ctx_no_instants(ctx.view_spec()) ==> (r matches Ok(b) ==> b == false),
            ctx_all_interactive(ctx.view_spec()) ==> (r matches Ok(b) && b == false),
            ctx_pure_instants(ctx.view_spec()) ==> (match first_jump(
                ctx.view_spec().actions,
                old(self).curr_state,
                old(self).prev_state,
            ) {
                Some(tj) => r matches Ok(b) && b == true && final(self).curr_state == tj,
                None => r matches Ok(b) && b == false,
            }),
    {
        let ghost quiet = ctx_no_instants(ctx.view_spec());
        let ghost calm = ctx_all_interactive(ctx.view_spec());
        let ghost puree = ctx_pure_instants(ctx.view_spec());
        let ghost av = action_views(ctx.actions@);
        let na = ctx.actions.len();
        let mut ai: usize = 0;
        proof {
            assert(av.skip(0) =~= av);
        }
        while ai < na
            invariant
                ai <= na,
                na == ctx.actions@.len(),
                self.wf(),
                self.curr_state == old(self).curr_state,
                self.prev_state == old(self).prev_state,
                self.state_machine == old(self).state_machine,
                self.chain_limit == old(self).chain_limit,
                quiet == ctx_no_instants(ctx.view_spec()),
                calm == ctx_all_interactive(ctx.view_spec()),
                puree == ctx_pure_instants(ctx.view_spec()),
                av == action_views(ctx.actions@),
                puree ==> first_jump(av, old(self).curr_state, old(self).prev_state)
                    == first_jump(av.skip(ai as int), old(self).curr_state, old(self).prev_state),
            decreases na - ai,
        {
            let mut queue: Vec<DAction> = Vec::new();
            queue.push(ctx.actions[ai].dup());
            proof {
                if quiet || calm || puree {
                    assert(action_views(ctx.actions@)[ai as int] == ctx.actions@[ai as int]
                        .view_spec());
                }
            }
            let mut qi: usize = 0;
            let mut fuel: usize = ACTION_QUEUE_LIMIT;
            while qi < queue.len()
                invariant
                    qi <= queue.len(),
                    self.wf(),
                    self.curr_state == old(self).curr_state,
                    self.prev_state == old(self).prev_state,
                    self.state_machine == old(self).state_machine,
                    self.chain_limit == old(self).chain_limit,
                    quiet == ctx_no_instants(ctx.view_spec()),
                    calm == ctx_all_interactive(ctx.view_spec()),
                    quiet ==> forall|j: int| qi <= j < queue.len()
                        ==> !(#[trigger] queue@[j]).attrs.instant,
                    calm ==> forall|j: int| qi <= j < queue.len()
                        ==> !(#[trigger] queue@[j]).attrs.instant && queue@[j].kind
                        != ActionKind::CallEngine,
                    calm ==> fuel + qi >= queue.len(),
                    puree == ctx_pure_instants(ctx.view_spec()),
                    av == action_views(ctx.actions@),
                    puree ==> ({
                        &&& ai < na
                        &&& na == ctx.actions@.len()
                        &&& queue@.len() == 1
                        &&& qi <= 1
                        &&& (qi == 0 ==> queue@[0].view_spec() == av[ai as int] && fuel
                            == ACTION_QUEUE_LIMIT)
                        &&& (qi == 1 ==> spec_resolve(
                            av[ai as int].to,
                            old(self).curr_state,
                            old(self).prev_state,
                        ) == old(self).curr_state)
                        &&& first_jump(av, old(self).curr_state, old(self).prev_state)
                            == first_jump(
                            av.skip(ai as int),
                            old(self).curr_state,
                            old(self).prev_state,
                        )
                    }),
                decreases fuel,
            {
                if fuel == 0 {
                    return Err(String::from_str("instant action replay too long"));
                }
                fuel = fuel - 1;
                match classify(&queue[qi]) {
                    Disposition::RunNow => {
                        if queue[qi].desc.as_str().unicode_len() != 0 {
                            self.browser.log(queue[qi].desc.clone());
                        }
                        let follow = match self.handle_action(&queue[qi]) {
                            Ok(f) => f,
                            Err(e) => {
                                return Err(e);
                            },
                        };
                        match follow {
                            Some(acts) => {
                                let mut k: usize = 0;
                                while k < acts.len()
                                    invariant
                                        k <= acts.len(),
                                        qi < queue.len(),
                                        !quiet,
                                        self.wf(),
                                        self.curr_state == old(self).curr_state,
                                        self.prev_state == old(self).prev_state,
                                        self.state_machine == old(self).state_machine,
                                        self.chain_limit == old(self).chain_limit,
                                    decreases acts.len() - k,
                                {
                                    queue.push(acts[k].dup());
                                    k = k + 1;
                                }
                            },
                            None => (),
                        }
                        let to = resolve(queue[qi].to, self.curr_state, self.prev_state);
                        proof {
                            if puree {
                                assert(av.skip(ai as int)[0] == av[ai as int]);
                            }
                        }
                        if to != self.curr_state {
                            self.curr_state = to;
                            return Ok(true);
                        }
                    },
                    Disposition::RunEngine => {
                        match self.handle_action(&queue[qi]) {
                            Ok(_) => (),
                            Err(e) => {
                                return Err(e);
                            },
                        }
                    },
                    Disposition::Present => {
                        self.browser.show_action(queue[qi].dup());
                    },
                }
                qi = qi + 1;
            }
            proof {
                if puree {
                    assert(av.skip(ai as int)[0] == av[ai as int]);
                    assert(av.skip(ai as int).skip(1) =~= av.skip(ai as int + 1));
                }
            }
            ai = ai + 1;
        }
        proof {
            if puree {
                assert(av.skip(ai as int).len() == 0);
            }
        }
        Ok(false)
    }

    /// Switch into a state: resolve the sentinels, record the previous
    /// state, and enter the target context — following any chain of
    /// instant transitions its actions request, up to the configured
    /// ceiling.  Resolving to the exit sentinel only notifies the front
    /// end; a no-op transition without `force` does nothing; a target with
    /// no context in the graph is logged and the control state reverts to
    /// the last successfully entered context, so the current state never
    /// comes to rest on a context absent from the graph.
    pub fn switch_state(&mut self, state_to: StateId, force: bool) -> (r: Result<(), String>)
        requires
            old(self).wf(),
        ensures
            final(self).wf(),
            final(self).state_machine == old(self).state_machine,
            final(self).chain_limit == old(self).chain_limit,
            old(self).curr_in_graph() ==> final(self).curr_in_graph(),
            ({
                let t = spec_resolve(state_to, old(self).curr_state, old(self).prev_state);
                &&& ((t == StateId::Exit || (t == old(self).curr_state && !force))
                    ==> final(self).curr_state == old(self).curr_state && final(self).prev_state
                    == old(self).prev_state)
                &&& (t == StateId::Exit ==> r is Ok)
                &&& (t != StateId::Exit && t == old(self).curr_state && !force ==> r is Ok
                    && *final(self) == *old(self))
                &&& (match t {
                    StateId::Id(n) => {
                        &&& ((t != old(self).curr_state || force) && !graph_has_id(
                            old(self).state_machine@,
                            n,
                        ) ==> r is Ok && final(self).curr_state == old(self).curr_state
                            && final(self).prev_state == old(self).prev_state)
                        &&& (!(t == old(self).curr_state && !force) && graph_has_id(
                            old(self).state_machine@,
                            n,
                        ) ==> final(self).prev_state == old(self).curr_state)
                        &&& (graph_no_instants(old(self).graph()) && !(t == old(self).curr_state
                            && !force) && graph_has_id(old(self).state_machine@, n)
                            ==> final(self).curr_state == t)
                    },
                    _ => true,
                })
            }),
    {
        let t = resolve(state_to, self.curr_state, self.prev_state);
        if t == StateId::Exit {
            self.browser.switch(StateId::Exit);
            return Ok(());
        }
        if t == self.curr_state && !force {
            return Ok(());
        }
        let entry_curr = self.curr_state;
        let entry_prev = self.prev_state;
        self.prev_state = self.curr_state;
        self.curr_state = t;
        let mut target = t;
        let mut entered = false;
        let mut last = t;
        let mut hops: u32 = 0;
        loop
            invariant
                self.wf(),
                target.is_settled(),
                last.is_settled(),
                self.curr_state == target,
                self.prev_state == old(self).curr_state,
                self.state_machine == old(self).state_machine,
                self.chain_limit == old(self).chain_limit,
                hops <= self.chain_limit,
                entry_curr == old(self).curr_state,
                entry_prev == old(self).prev_state,
                old(self).curr_state.is_settled(),
                old(self).prev_state.is_settled(),
                !(spec_resolve(state_to, old(self).curr_state, old(self).prev_state)
                    == StateId::Exit),
                spec_resolve(state_to, old(self).curr_state, old(self).prev_state)
                    != old(self).curr_state || force,
                graph_no_instants(old(self).graph()) ==> target == spec_resolve(
                    state_to,
                    old(self).curr_state,
                    old(self).prev_state,
                ),
                !entered ==> target == spec_resolve(
                    state_to,
                    old(self).curr_state,
                    old(self).prev_state,
                ),
                entered ==> (match last {
                    StateId::Id(m) => graph_has_id(old(self).state_machine@, m),
                    _ => false,
                }),
                entered ==> (match spec_resolve(
                    state_to,
                    old(self).curr_state,
                    old(self).prev_state,
                ) {
                    StateId::Id(n) => graph_has_id(old(self).state_machine@, n),
                    _ => true,
                }),
            decreases self.chain_limit - hops,
        {
            let id = match target {
                StateId::Id(n) => n,
                _ => {
                    self.browser.switch(StateId::Exit);
                    return Ok(());
                },
            };
            match find_context(&self.state_machine, id) {
                Some(idx) => {
                    let ctx = self.state_machine[idx].dup();
                    self.browser.switch(target);
                    self.browser.log(ctx.desc.clone());
                    entered = true;
                    last = target;
                    proof {
                        if graph_no_instants(old(self).graph()) {
                            assert(old(self).graph()[idx as int] == old(self).state_machine@[
                                idx as int].view_spec());
                            assert(ctx_no_instants(ctx.view_spec()));
                        }
                    }
                    match self.enumerate_actions(&ctx) {
                        Ok(true) => {
                            if hops >= self.chain_limit {
                                self.curr_state = last;
                                return Err(
                                    String::from_str("instant transition chain too long"),
                                );
                            }
                            hops = hops + 1;
                            target = self.curr_state;
                        },
                        Ok(false) => {
                            return Ok(());
                        },
                        Err(e) => {
                            return Err(e);
                        },
                    }
                },
                None => {
                    let mut m = String::from_str("Debot context #");
                    m.append(u64_to_dec(id as u64).as_str());
                    m.append(" not found. Exit.");
                    self.browser.log(m);
                    if entered {
                        self.curr_state = last;
                    } else {
                        self.curr_state = entry_curr;
                        self.prev_state = entry_prev;
                    }
                    return Ok(());
                },
            }
        }
    }

    /// Execute a user-chosen action, then force entry into its declared
    /// target state.  On any failure the failure is logged and the session
    /// falls back to the previous state: a failed action never leaves the
    /// session outside the last known-good context.  With no instant
    /// actions in the graph, the state afterwards is exactly the action's
    /// resolved target (success), the pre-call previous state (fallback),
    /// or unchanged where the landed-on state is the exit sentinel.
    pub fn execute_action(&mut self, act: &DAction) -> (r: Result<(), String>)
        requires
            old(self).wf(),
        ensures
            final(self).wf(),
            final(self).state_machine == old(self).state_machine,
            old(self).curr_in_graph() ==> final(self).curr_in_graph(),
            graph_no_instants(old(self).graph()) ==> ({
                let t = spec_resolve(act.to, old(self).curr_state, old(self).prev_state);
                ||| final(self).curr_state == t
                ||| final(self).curr_state == old(self).prev_state
                ||| final(self).curr_state == old(self).curr_state
            }),
    {
        match self.handle_action(act) {
            Ok(_) => self.switch_state(act.to, true),
            Err(e) => {
                let mut m = String::from_str("Action failed: ");
                m.append(e.as_str());
                m.append(". Return to previous state.\n");
                self.browser.log(m);
                let p = self.prev_state;
                self.switch_state(p, false)
            },
        }
    }
}

/// How context-entry processing treats one action.
pub enum Disposition {
    /// An instant action: run it at once, with no user choice.
    RunNow,
    /// An engine-only action: run it without interaction.
    RunEngine,
    /// An interactive action: present it to the front end.
    Present,
}

/// Classify an action for context-entry processing.  An action is
/// presented to the front end exactly when it is neither instant nor
/// engine-only: instant and engine-only actions are never shown, and a
/// purely interactive action is never skipped.
pub fn classify(a: &DAction) -> (r: Disposition)
    ensures
        r is RunNow <==> a.spec_is_instant(),
        !a.spec_is_instant() && a.spec_is_engine_call() ==> r is RunEngine,
        r is Present <==> !a.spec_is_instant() && !a.spec_is_engine_call(),
{
    if a.is_instant() {
        Disposition::RunNow
    } else if a.is_engine_call() {
        Disposition::RunEngine
    } else {
        Disposition::Present
    }
}

/// No action of the context is instant.
pub open spec fn ctx_no_instants(c: ContextView) -> bool {
    forall|j: int| 0 <= j < c.actions.len() ==> !(#[trigger] c.actions[j]).attrs.instant
}

/// Every action of the context is purely interactive: neither instant nor
/// engine-only.
pub open spec fn ctx_all_interactive(c: ContextView) -> bool {
    forall|j: int| 0 <= j < c.actions.len()
        ==> !(#[trigger] c.actions[j]).attrs.instant && c.actions[j].kind
        != ActionKind::CallEngine
}

/// An instant action whose dispatch the engine decides alone: no outside
/// call stands between it and its outcome.
pub open spec fn pure_instant(a: ActionView) -> bool {
    a.attrs.instant && (a.kind == ActionKind::Empty || a.kind == ActionKind::Goto || (a.kind
        == ActionKind::Print && a.attrs.fargs is None))
}

/// Every action of the context is a pure instant action.
pub open spec fn ctx_pure_instants(c: ContextView) -> bool {
    forall|j: int| 0 <= j < c.actions.len() ==> pure_instant(#[trigger] c.actions[j])
}

/// The resolved target of the first action that leaves the current state,
/// if any action does.
pub open spec fn first_jump(actions: Seq<ActionView>, curr: StateId, prev: StateId) -> Option<
    StateId,
>
    decreases actions.len(),
{
    if actions.len() == 0 {
        None
    } else if spec_resolve(actions[0].to, curr, prev) != curr {
        Some(spec_resolve(actions[0].to, curr, prev))
    } else {
        first_jump(actions.skip(1), curr, prev)
    }
}

/// Some context of the graph has the given id.
pub open spec fn graph_has_id(g: Seq<DContext>, id: u8) -> bool {
    exists|j: int| 0 <= j < g.len() && (#[trigger] g[j]).id == id
}

/// The ceiling on breadth-first replay of instant-action follow-ups within
/// one context: exceeding it fails loudly instead of looping forever.
pub const ACTION_QUEUE_LIMIT: usize = 1024;


/// Arguments for a call: the given document, or the empty object.
fn args_or_empty(args: Option<Json>) -> (r: Json)
    ensures
        match args {
            Some(v) => r == v,
            None => r matches Json::Obj(fields) && fields@.len() == 0,
        },
{
    match args {
        Some(v) => v,
        None => obj_empty(),
    }
}

/// What a message-sending call resolved to: destination, governing
/// interface description, decoded body, and optional initial-state bytes.
pub struct MessagePlan {
    /// The destination address.
    pub dest: TonAddr,
    /// The interface description the body is decoded against.
    pub abi: String,
    /// The message body bytes.
    pub body: Vec<u8>,
    /// Initial-state bytes to attach, when the output carried them.
    pub state: Option<Vec<u8>>,
}

/// Read a message-sending call's output: the `dest` and `body` fields must
/// be text, the optional `state` and the body must base64-decode, the
/// destination must be a well-formed address, and the governing interface
/// description is the self one when the destination equals the self
/// address, else the configured target one — failing when none is
/// configured.
pub fn plan_sendmsg(
    output: &Json,
    self_addr: &TonAddr,
    self_abi: &String,
    target_abi: &Option<String>,
) -> (r: Result<MessagePlan, String>)
    ensures
        ({
            let dest_f = as_text_spec(spec_get(*output, "dest"@));
            let body_f = as_text_spec(spec_get(*output, "body"@));
            let state_f = as_text_spec(spec_get(*output, "state"@));
            match r {
                Err(_) => {
                    ||| dest_f is None
                    ||| body_f is None
                    ||| (state_f matches Some(st) && crate::codec::base64_decoding(st) is None)
                    ||| (body_f matches Some(bt) && crate::codec::base64_decoding(bt) is None)
                    ||| (dest_f matches Some(d) && !addr_valid(d))
                    ||| (dest_f matches Some(d) && d != self_addr.text@ && *target_abi is None)
                },
                Ok(p) => {
                    &&& dest_f matches Some(d) && addr_valid(d) && p.dest.text@ == d
                    &&& body_f matches Some(bt) && crate::codec::base64_decoding(bt) == Some(
                        p.body@,
                    )
                    &&& (match state_f {
                        Some(st) => p.state matches Some(sb) && crate::codec::base64_decoding(
                            st,
                        ) == Some(sb@),
                        None => p.state is None,
                    })
                    &&& (if dest_f->0 == self_addr.text@ {
                        p.abi@ == self_abi@
                    } else {
                        match *target_abi {
                            Some(t) => p.abi@ == t@,
                            None => false,
                        }
                    })
                },
            }
        }),
{
    let dest = match output.get("dest").as_str() {
        Some(d) => d.clone(),
        None => {
            return Err(String::from_str("no destination address in result"));
        },
    };
    let body = match output.get("body").as_str() {
        Some(b) => b.clone(),
        None => {
            return Err(String::from_str("no message body in result"));
        },
    };
    let state = match output.get("state").as_str() {
        Some(st) => match base64_decode(st.as_str()) {
            Some(bytes) => Some(bytes),
            None => {
                return Err(String::from_str("cannot decode state"));
            },
        },
        None => None,
    };
    let body_bytes = match base64_decode(body.as_str()) {
        Some(b) => b,
        None => {
            return Err(String::from_str("cannot decode message body"));
        },
    };
    let dest_addr = match load_ton_address(dest.as_str()) {
        Ok(a) => a,
        Err(e) => {
            return Err(e);
        },
    };
    let abi = if str_eq(dest_addr.text.as_str(), self_addr.text.as_str()) {
        self_abi.clone()
    } else {
        match target_abi {
            Some(t) => t.clone(),
            None => {
                return Err(String::from_str("target abi is undefined"));
            },
        }
    };
    Ok(MessagePlan { dest: dest_addr, abi, body: body_bytes, state })
}

/// Decode a mutating call's follow-up actions: a null output or a null
/// `actions` field means none; an `actions` array must decode member for
/// member; anything else is malformed.
pub fn decode_follow_ups(output: &Json) -> (r: Result<Option<Vec<DAction>>, String>)
    ensures
        ({
            let af = spec_get(*output, "actions"@);
            match r {
                Ok(f) => match f {
                    None => *output is Null || af is Null,
                    Some(acts) => (match af {
                        Json::Arr(items) => crate::action::parse_actions_view(items@) == Some(
                            action_views(acts@),
                        ),
                        _ => false,
                    }),
                },
                Err(_) => !(*output is Null) && !(af is Null) && (match af {
                    Json::Arr(items) => crate::action::parse_actions_view(items@) is None,
                    _ => true,
                }),
            }
        }),
{
    if output.is_null() {
        return Ok(None);
    }
    let af = output.get("actions");
    if af.is_null() {
        return Ok(None);
    }
    let items = match af {
        Json::Arr(items) => items,
        _ => {
            return Err(String::from_str("invalid actions in result"));
        },
    };
    let n = items.len();
    let mut out: Vec<DAction> = Vec::new();
    let mut i: usize = 0;
    proof {
        assert(items@.skip(0) =~= items@);
    }
    while i < n
        invariant
            i <= n,
            n == items@.len(),
            out@.len() == i,
            (match spec_get(*output, "actions"@) {
                Json::Arr(it) => it@ == items@,
                _ => false,
            }),
            !(*output is Null),
            forall|j: int| 0 <= j < i
                ==> crate::action::parse_action_view(items@[j]) == Some(
                    (#[trigger] out@[j]).view_spec(),
                ),
            crate::action::parse_actions_view(items@) is Some
                <==> crate::action::parse_actions_view(items@.skip(i as int)) is Some,
            crate::action::parse_actions_view(items@) matches Some(all)
                ==> all =~= action_views(out@) + crate::action::parse_actions_view(
                items@.skip(i as int),
            )->0,
        decreases n - i,
    {
        let ghost t = items@.skip(i as int);
        proof {
            assert(t[0] == items@[i as int]);
            assert(t.skip(1) =~= items@.skip(i + 1));
        }
        let a = match parse_action(&items[i]) {
            Some(a) => a,
            None => {
                return Err(String::from_str("invalid actions in result"));
            },
        };
        out.push(a);
        i = i + 1;
        proof {
            assert(action_views(out@) =~= action_views(out@.subrange(0, i - 1)).push(
                out@[i - 1].view_spec(),
            ));
        }
    }
    proof {
        assert(items@.skip(i as int).len() == 0);
        assert(crate::action::parse_actions_view(items@)->0 =~= action_views(out@));
    }
    Ok(Some(out))
}

/// The version number of a `semver` field: a hex number no wider than 32
/// bits, with an optional `0x` prefix.
pub open spec fn semver_num(s: Seq<char>) -> Option<u32> {
    let start: int = if s.len() >= 2 && s[0] == '0' && s[1] == 'x' {
        2
    } else {
        0
    };
    let digits = s.subrange(start, s.len() as int);
    if digits.len() > 0 && hex_seq_valid(digits) && crate::strutil::hex_seq_num(digits)
        <= u32::MAX {
        Some(crate::strutil::hex_seq_num(digits) as u32)
    } else {
        None
    }
}

/// The log line of a `getVersion` output: the hex-decoded `name`, then
/// `", version "` and the three version bytes in decimal — failing exactly
/// when the name is missing or does not decode, or the version is missing
/// or out of range.
pub fn version_line(output: &Json) -> (r: Result<String, String>)
    ensures
        ({
            let name_f = as_text_spec(spec_get(*output, "name"@));
            let ver_f = as_text_spec(spec_get(*output, "semver"@));
            match r {
                Err(_) => {
                    ||| name_f is None
                    ||| (name_f matches Some(h) && (!hex_valid(h) || utf8_decoding(
                        hex_decode_seq(h),
                    ) is None))
                    ||| ver_f is None
                    ||| (ver_f matches Some(vs) && semver_num(vs) is None)
                },
                Ok(line) => {
                    &&& name_f matches Some(h) && utf8_decoding(hex_decode_seq(h)) matches Some(
                        nm,
                    ) && ver_f matches Some(vs) && semver_num(vs) matches Some(v) && line@ == nm
                        + ", version "@ + crate::strutil::dec_digits(((v >> 16) as u8) as nat)
                        + "."@ + crate::strutil::dec_digits(((v >> 8) as u8) as nat) + "."@
                        + crate::strutil::dec_digits((v as u8) as nat)
                },
            }
        }),
{
    let name_hex = match output.get("name").as_str() {
        Some(h) => h.clone(),
        None => {
            return Err(String::from_str("invalid name in result"));
        },
    };
    let name = match str_hex_to_utf8(name_hex.as_str()) {
        Some(t) => t,
        None => {
            return Err(String::from_str("invalid name in result"));
        },
    };
    let ver_hex = match output.get("semver").as_str() {
        Some(h) => h.clone(),
        None => {
            return Err(String::from_str("invalid version in result"));
        },
    };
    let vn = ver_hex.as_str().unicode_len();
    let vstart: usize = if vn >= 2 && ver_hex.as_str().get_char(0) == '0' && ver_hex.as_str()
        .get_char(1) == 'x' {
        2
    } else {
        0
    };
    let ver = match parse_hex_u64(ver_hex.as_str(), vstart) {
        Some(v) => if v <= u32::MAX as u64 {
            v as u32
        } else {
            return Err(String::from_str("invalid version in result"));
        },
        None => {
            return Err(String::from_str("invalid version in result"));
        },
    };
    let mut line = name;
    line.append(", version ");
    line.append(u64_to_dec(((ver >> 16) as u8) as u64).as_str());
    line.append(".");
    line.append(u64_to_dec(((ver >> 8) as u8) as u64).as_str());
    line.append(".");
    line.append(u64_to_dec((ver as u8) as u64).as_str());
    Ok(line)
}

/// Find a context by id in the graph.
fn find_context(graph: &Vec<DContext>, id: u8) -> (r: Option<usize>)
    ensures
        match r {
            Some(i) => i < graph@.len() && graph@[i as int].id == id,
            None => forall|j: int| 0 <= j < graph@.len() ==> (#[trigger] graph@[j]).id != id,
        },
{
    let n = graph.len();
    let mut i: usize = 0;
    while i < n
        invariant
            i <= n,
            n == graph@.len(),
            forall|j: int| 0 <= j < i ==> (#[trigger] graph@[j]).id != id,
        decreases n - i,
    {
        if graph[i].id == id {
            return Some(i);
        }
        i = i + 1;
    }
    None
}

} // verus!
