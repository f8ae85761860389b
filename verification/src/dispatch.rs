//! The command dispatcher: which named arguments each command reads, in
//! which order, and what the server answers when a command is unknown or an
//! argument is missing.

use vstd::prelude::*;
use vstd::string::*;
use crate::json::{JsonValue, JsonNumber, find_key, lookup, str_eq, field, get_field};
use crate::args::{
    spec_req_str, spec_opt_str, spec_req_bool, spec_opt_bool, spec_opt_i64, spec_req_u32,
    spec_req_usize, spec_opt_u64, spec_opt_str_list, spec_req, spec_opt, opt_view, req_str,
    opt_str, req_bool, opt_bool, opt_i64, req_u32, req_usize, opt_u64, opt_str_list, req, opt,
};
use crate::reply::{error_json, error_body, Reply, ContentKind, is_plain_text, plain_text_is_quoted_as_is};
use crate::table::{command_params, lookup_command_params, provider_params, config_params};
use crate::commands::{no_dialog, dialog_failure, save_file_dialog, open_file_dialog, open_zip_file_dialog};


verus! {

/// How a command reads one of its named arguments.
#[derive(Clone, Copy, PartialEq, Eq, Structural)]
pub enum ParamKind {
    /// A required string (`req_str`).
    ReqStr,
    /// An optional string (`opt_str`, or decoding into `String`).
    OptStr,
    /// A required boolean (`req_bool`).
    ReqBool,
    /// An optional boolean (`opt_bool`, or decoding into `bool`).
    OptBool,
    /// An optional integer that fits in `i64` (`opt_i64`).
    OptI64,
    /// A required non-negative integer, kept to 32 bits (`req_u32`).
    ReqU32,
    /// A required non-negative integer as a `usize` (`req_usize`).
    ReqUsize,
    /// An optional non-negative integer (decoding into `u64`).
    OptU64,
    /// An optional array of strings (decoding into `Vec<String>`).
    OptStrList,
    /// A required member that the command decodes into its own type (`req`).
    ReqTyped,
    /// An optional member that the command decodes into its own type (`opt`).
    OptTyped,
}

/// One named argument of a command.
#[derive(Clone, Copy)]
pub struct Param {
    pub key: &'static str,
    pub kind: ParamKind,
}

/// An argument as read from the request.
pub enum ArgValue {
    Str(String),
    OptStr(Option<String>),
    Bool(bool),
    OptBool(Option<bool>),
    OptI64(Option<i64>),
    U32(u32),
    Usize(usize),
    OptU64(Option<u64>),
    OptStrList(Option<Vec<String>>),
    /// The member is present and its decoder accepted it.
    Typed,
    /// Whether the member is present and its decoder accepted it.
    OptTyped(bool),
}

/// The abstract value of an argument.
pub enum ArgModel {
    Str(Seq<char>),
    OptStr(Option<Seq<char>>),
    Bool(bool),
    OptBool(Option<bool>),
    OptI64(Option<i64>),
    U32(u32),
    Usize(usize),
    OptU64(Option<u64>),
    OptStrList(Option<Seq<Seq<char>>>),
    Typed,
    OptTyped(bool),
}

impl View for ArgValue {
    type V = ArgModel;

    open spec fn view(&self) -> ArgModel {
        match self {
            ArgValue::Str(s) => ArgModel::Str(s@),
            ArgValue::OptStr(s) => ArgModel::OptStr(opt_view(*s)),
            ArgValue::Bool(b) => ArgModel::Bool(*b),
            ArgValue::OptBool(b) => ArgModel::OptBool(*b),
            ArgValue::OptI64(n) => ArgModel::OptI64(*n),
            ArgValue::U32(n) => ArgModel::U32(*n),
            ArgValue::Usize(n) => ArgModel::Usize(*n),
            ArgValue::OptU64(n) => ArgModel::OptU64(*n),
            ArgValue::OptStrList(l) => ArgModel::OptStrList(
                match l {
                    Some(v) => Some(v@.map_values(|s: String| s@)),
                    None => None,
                },
            ),
            ArgValue::Typed => ArgModel::Typed,
            ArgValue::OptTyped(b) => ArgModel::OptTyped(*b),
        }
    }
}

/// The view of a list of arguments.
pub open spec fn args_view(v: Seq<ArgValue>) -> Seq<ArgModel> {
    v.map_values(|a: ArgValue| a@)
}

/// The complaint of a command's decoder about member `key`, if it made one.
pub open spec fn rejection_for(rejections: Seq<(String, String)>, key: Seq<char>) -> Option<Seq<char>> {
    match lookup(rejections, key) {
        Some(m) => Some(m@),
        None => None,
    }
}

/// Reading one argument: its value, or the message of the failure.
pub open spec fn read_param(p: Param, args: Option<JsonValue>, rejections: Seq<(String, String)>) -> Result<
    ArgModel,
    Seq<char>,
> {
    let key = p.key@;
    match p.kind {
        ParamKind::ReqStr => match spec_req_str(args, key) {
            Ok(s) => Ok(ArgModel::Str(s)),
            Err(e) => Err(e),
        },
        ParamKind::OptStr => Ok(ArgModel::OptStr(spec_opt_str(args, key))),
        ParamKind::ReqBool => match spec_req_bool(args, key) {
            Ok(b) => Ok(ArgModel::Bool(b)),
            Err(e) => Err(e),
        },
        ParamKind::OptBool => Ok(ArgModel::OptBool(spec_opt_bool(args, key))),
        ParamKind::OptI64 => Ok(ArgModel::OptI64(spec_opt_i64(args, key))),
        ParamKind::ReqU32 => match spec_req_u32(args, key) {
            Ok(n) => Ok(ArgModel::U32(n)),
            Err(e) => Err(e),
        },
        ParamKind::ReqUsize => match spec_req_usize(args, key) {
            Ok(n) => Ok(ArgModel::Usize(n)),
            Err(e) => Err(e),
        },
        ParamKind::OptU64 => Ok(ArgModel::OptU64(spec_opt_u64(args, key))),
        ParamKind::OptStrList => Ok(ArgModel::OptStrList(spec_opt_str_list(args, key))),
        ParamKind::ReqTyped => match spec_req(args, key, rejection_for(rejections, key)) {
            Ok(_) => Ok(ArgModel::Typed),
            Err(e) => Err(e),
        },
        ParamKind::OptTyped => Ok(
            ArgModel::OptTyped(spec_opt(args, key, rejection_for(rejections, key) is Some) is Some),
        ),
    }
}

/// Reading the arguments in order: all their values, or the failure of the
/// first one that fails.
pub open spec fn read_params(ps: Seq<Param>, args: Option<JsonValue>, rejections: Seq<(String, String)>) -> Result<
    Seq<ArgModel>,
    Seq<char>,
>
    decreases ps.len(),
{
    if ps.len() == 0 {
        Ok(Seq::empty())
    } else {
        match read_params(ps.drop_last(), args, rejections) {
            Err(e) => Err(e),
            Ok(front) => match read_param(ps.last(), args, rejections) {
                Err(e) => Err(e),
                Ok(a) => Ok(front.push(a)),
            },
        }
    }
}

proof fn lemma_read_params_fail(ps: Seq<Param>, args: Option<JsonValue>, rejections: Seq<(String, String)>, i: int)
    requires
        0 <= i <= ps.len(),
        read_params(ps.take(i), args, rejections) is Err,
    ensures
        read_params(ps, args, rejections) == read_params(ps.take(i), args, rejections),
    decreases ps.len() - i,
{
    if i < ps.len() {
        assert(ps.take(i + 1).drop_last() =~= ps.take(i));
        assert(read_params(ps.take(i + 1), args, rejections) == read_params(ps.take(i), args, rejections));
        lemma_read_params_fail(ps, args, rejections, i + 1);
    } else {
        assert(ps.take(i) =~= ps);
    }
}

/// The decoder's complaint about member `key`, copied.
pub fn find_rejection(rejections: &Vec<(String, String)>, key: &str) -> (r: Option<String>)
    ensures
        opt_view(r) == rejection_for(rejections@, key@),
{
    match find_key(rejections, key) {
        Some(i) => Some(rejections[i].1.clone()),
        None => None,
    }
}

/// Reads one argument.
pub fn read_arg(p: Param, args: &Option<JsonValue>, rejections: &Vec<(String, String)>) -> (r: Result<
    ArgValue,
    String,
>)
    ensures
        match r {
            Ok(a) => read_param(p, *args, rejections@) == Ok::<ArgModel, Seq<char>>(a@),
            Err(e) => read_param(p, *args, rejections@) == Err::<ArgModel, Seq<char>>(e@),
        },
{
    let key = p.key;
    match p.kind {
        ParamKind::ReqStr => match req_str(args, key) {
            Ok(s) => Ok(ArgValue::Str(s)),
            Err(e) => Err(e),
        },
        ParamKind::OptStr => Ok(ArgValue::OptStr(opt_str(args, key))),
        ParamKind::ReqBool => match req_bool(args, key) {
            Ok(b) => Ok(ArgValue::Bool(b)),
            Err(e) => Err(e),
        },
        ParamKind::OptBool => Ok(ArgValue::OptBool(opt_bool(args, key))),
        ParamKind::OptI64 => Ok(ArgValue::OptI64(opt_i64(args, key))),
        ParamKind::ReqU32 => match req_u32(args, key) {
            Ok(n) => Ok(ArgValue::U32(n)),
            Err(e) => Err(e),
        },
        ParamKind::ReqUsize => match req_usize(args, key) {
            Ok(n) => Ok(ArgValue::Usize(n)),
            Err(e) => Err(e),
        },
        ParamKind::OptU64 => Ok(ArgValue::OptU64(opt_u64(args, key))),
        ParamKind::OptStrList => Ok(ArgValue::OptStrList(opt_str_list(args, key))),
        ParamKind::ReqTyped => {
            let rejection = find_rejection(rejections, key);
            match req(args, key, &rejection) {
                Ok(_) => Ok(ArgValue::Typed),
                Err(e) => Err(e),
            }
        },
        ParamKind::OptTyped => {
            let rejected = find_rejection(rejections, key).is_some();
            Ok(ArgValue::OptTyped(opt(args, key, rejected).is_some()))
        },
    }
}

/// Reads the arguments in order, stopping at the first that fails.
pub fn read_args(params: &Vec<Param>, args: &Option<JsonValue>, rejections: &Vec<(String, String)>) -> (r:
    Result<Vec<ArgValue>, String>)
    ensures
        match r {
            Ok(v) => read_params(params@, *args, rejections@) == Ok::<Seq<ArgModel>, Seq<char>>(
                args_view(v@),
            ),
            Err(e) => read_params(params@, *args, rejections@) == Err::<Seq<ArgModel>, Seq<char>>(
                e@,
            ),
        },
{
    let n = params.len();
    let mut out: Vec<ArgValue> = Vec::new();
    let mut i: usize = 0;
    assert(params@.take(0) =~= Seq::<Param>::empty());
    assert(args_view(out@) =~= Seq::<ArgModel>::empty());
    while i < n
        invariant
            n == params@.len(),
            0 <= i <= n,
            read_params(params@.take(i as int), *args, rejections@) == Ok::<Seq<ArgModel>, Seq<char>>(
                args_view(out@),
            ),
        decreases n - i,
    {
        let p = params[i];
        assert(params@.take(i + 1).drop_last() =~= params@.take(i as int));
        assert(params@.take(i + 1).last() == params@[i as int]);
        match read_arg(p, args, rejections) {
            Ok(a) => {
                let ghost before = out@;
                let ghost model = a@;
                out.push(a);
                assert(out@ =~= before.push(a));
                assert(args_view(out@) =~= args_view(before).push(model));
            },
            Err(e) => {
                proof {
                    lemma_read_params_fail(params@, *args, rejections@, i + 1);
                }
                return Err(e);
            },
        }
        i = i + 1;
    }
    assert(params@.take(n as int) =~= params@);
    Ok(out)
}

/// The most bytes of a request body that the server reads; a longer body
/// is unreadable.
pub const BODY_LIMIT: usize = 1024 * 1024;

/// Whether an argument is one that the command decodes into its own type.
pub open spec fn is_typed(kind: ParamKind) -> bool {
    kind == ParamKind::ReqTyped || kind == ParamKind::OptTyped
}

/// The names of the arguments among `ps` that the command decodes into its
/// own types and that the request holds: these are the members whose
/// values its decoders are asked about.
pub open spec fn typed_present(ps: Seq<Param>, args: Option<JsonValue>) -> Seq<Seq<char>>
    decreases ps.len(),
{
    if ps.len() == 0 {
        Seq::empty()
    } else {
        let front = typed_present(ps.drop_last(), args);
        let p = ps.last();
        if is_typed(p.kind) && field(args, p.key@) is Some {
            front.push(p.key@)
        } else {
            front
        }
    }
}

/// The names of the typed arguments among `params` that the request holds,
/// in order.
pub fn typed_members(params: &Vec<Param>, args: &Option<JsonValue>) -> (r: Vec<&'static str>)
    ensures
        r@.map_values(|k: &'static str| k@) == typed_present(params@, *args),
{
    let n = params.len();
    let mut out: Vec<&'static str> = Vec::new();
    let mut i: usize = 0;
    assert(params@.take(0) =~= Seq::<Param>::empty());
    assert(out@.map_values(|k: &'static str| k@) =~= Seq::<Seq<char>>::empty());
    while i < n
        invariant
            n == params@.len(),
            0 <= i <= n,
            out@.map_values(|k: &'static str| k@) == typed_present(params@.take(i as int), *args),
        decreases n - i,
    {
        assert(params@.take(i + 1).drop_last() =~= params@.take(i as int));
        assert(params@.take(i + 1).last() == params@[i as int]);
        let p = params[i];
        let typed = match p.kind {
            ParamKind::ReqTyped | ParamKind::OptTyped => true,
            _ => false,
        };
        if typed && get_field(args, p.key).is_some() {
            let ghost before = out@;
            out.push(p.key);
            assert(out@.map_values(|k: &'static str| k@) =~= before.map_values(|k: &'static str| k@).push(
                p.key@,
            ));
        }
        i = i + 1;
    }
    assert(params@.take(n as int) =~= params@);
    out
}

/// A command to run, with the arguments read for it.
pub struct CommandCall {
    pub command: String,
    pub params: Vec<Param>,
    pub args: Vec<ArgValue>,
}

/// What the dispatcher decided for a request.
pub enum Route {
    /// Run the command.
    Run(CommandCall),
    /// Answer at once.
    Answer(Reply),
}

/// The request body as the server received it.
pub enum Body {
    /// The body could not be read (it was cut off or over the size limit).
    Unreadable,
    /// The body was read; it held this JSON document, or was not JSON.
    Read(Option<JsonValue>),
}

/// The abstract value of a dispatch decision.
pub enum RouteModel {
    Run { command: Seq<char>, params: Seq<Param>, args: Seq<ArgModel> },
    Answer { status: u16, body: Seq<char>, content: ContentKind },
}

/// The view of a dispatch decision.
pub open spec fn route_view(r: Route) -> RouteModel {
    match r {
        Route::Run(c) => RouteModel::Run { command: c.command@, params: c.params@, args: args_view(c.args@) },
        Route::Answer(a) => RouteModel::Answer { status: a.status, body: a.body@, content: a.content },
    }
}

/// The answer to a command that the dispatcher does not know: 404 with
/// `{"error": "Unknown command: <name>"}`.
pub open spec fn unknown_command(command: Seq<char>) -> RouteModel {
    RouteModel::Answer {
        status: 404,
        body: error_json("Unknown command: "@ + command),
        content: ContentKind::Json,
    }
}

/// The answer to a request whose arguments do not fit the command: 400
/// with `{"error": <message>}`.
pub open spec fn bad_arguments(message: Seq<char>) -> RouteModel {
    RouteModel::Answer { status: 400, body: error_json(message), content: ContentKind::Json }
}

/// The answer to a file dialog, which a server does not have: the
/// dialog's error as text, with status 500.
pub open spec fn dialog_answer() -> RouteModel {
    RouteModel::Answer { status: 500, body: no_dialog(), content: ContentKind::Text }
}

/// Whether a command is a file dialog that reads no argument.
pub open spec fn is_open_dialog(command: Seq<char>) -> bool {
    command == "open_file_dialog"@ || command == "open_zip_file_dialog"@
}

/// The decision for a command and its parsed arguments (`dispatch_inner`).
/// `update_tray_menu` has no tray to update on a server and is answered
/// `true` at once; the file dialogs are answered at once with their error
/// (the save dialog once its default name is read); a known command runs
/// when its arguments can be read; otherwise the request is refused.
pub open spec fn decide(command: Seq<char>, args: Option<JsonValue>, rejections: Seq<(String, String)>) -> RouteModel {
    if command == "update_tray_menu"@ {
        RouteModel::Answer { status: 200, body: "true"@, content: ContentKind::Json }
    } else if is_open_dialog(command) {
        dialog_answer()
    } else {
        match command_params(command) {
            None => unknown_command(command),
            Some(ps) => match read_params(ps, args, rejections) {
                Ok(a) => if command == "save_file_dialog"@ {
                    dialog_answer()
                } else {
                    RouteModel::Run { command, params: ps, args: a }
                },
                Err(e) => bad_arguments(e),
            },
        }
    }
}

/// The decision for a request (`dispatch`): a body that could not be read
/// is answered 400 `Failed to read body` as plain text.
pub open spec fn decide_request(command: Seq<char>, body: Body, rejections: Seq<(String, String)>) -> RouteModel {
    match body {
        Body::Unreadable => RouteModel::Answer {
            status: 400,
            body: "Failed to read body"@,
            content: ContentKind::Text,
        },
        Body::Read(args) => decide(command, args, rejections),
    }
}

/// The first argument read, when it is a text.
fn first_text(values: &Vec<ArgValue>) -> (r: Option<&str>) {
    if values.len() > 0 {
        match &values[0] {
            ArgValue::Str(s) => Some(s.as_str()),
            _ => None,
        }
    } else {
        None
    }
}

/// Decides what to do with a command and its parsed arguments.
/// `rejections` pairs a member name with the complaint of the command's own
/// decoder about that member's value.
pub fn dispatch_inner(command: &str, args: &Option<JsonValue>, rejections: &Vec<(String, String)>) -> (r: Route)
    ensures
        route_view(r) == decide(command@, *args, rejections@),
{
    if str_eq(command, "update_tray_menu") {
        return Route::Answer(Reply { status: 200, body: String::from_str("true"), content: ContentKind::Json });
    }
    if str_eq(command, "open_file_dialog") {
        return Route::Answer(dialog_failure(open_file_dialog()));
    }
    if str_eq(command, "open_zip_file_dialog") {
        return Route::Answer(dialog_failure(open_zip_file_dialog()));
    }
    match lookup_command_params(command) {
        None => {
            let m = String::from_str("Unknown command: ").concat(command);
            Route::Answer(Reply { status: 404, body: error_body(m.as_str()), content: ContentKind::Json })
        },
        Some(params) => match read_args(&params, args, rejections) {
            Ok(values) => {
                if str_eq(command, "save_file_dialog") {
                    let default_name = match first_text(&values) {
                        Some(name) => name,
                        None => "",
                    };
                    Route::Answer(dialog_failure(save_file_dialog(default_name)))
                } else {
                    Route::Run(CommandCall { command: String::from_str(command), params, args: values })
                }
            },
            Err(e) => Route::Answer(Reply { status: 400, body: error_body(e.as_str()), content: ContentKind::Json }),
        },
    }
}

/// Decides what to do with a request to run `command`.
pub fn dispatch(command: &str, body: &Body, rejections: &Vec<(String, String)>) -> (r: Route)
    ensures
        route_view(r) == decide_request(command@, *body, rejections@),
{
    match body {
        Body::Unreadable => Route::Answer(
            Reply { status: 400, body: String::from_str("Failed to read body"), content: ContentKind::Text },
        ),
        Body::Read(args) => dispatch_inner(command, args, rejections),
    }
}

/// Whether an argument is optional (reading it never fails).
pub open spec fn is_optional(kind: ParamKind) -> bool {
    match kind {
        ParamKind::ReqStr | ParamKind::ReqBool | ParamKind::ReqU32 | ParamKind::ReqUsize
        | ParamKind::ReqTyped => false,
        _ => true,
    }
}

/// An optional argument never fails a request: reading it always gives a
/// value, present or not.
pub proof fn optional_args_never_fail(p: Param, args: Option<JsonValue>, rejections: Seq<(String, String)>)
    requires
        is_optional(p.kind),
    ensures
        read_param(p, args, rejections) is Ok,
{
}

/// The arguments handed to a command are, one for one and in order, what
/// its argument readers read from the request.
pub proof fn run_args_are_read_args(ps: Seq<Param>, args: Option<JsonValue>, rejections: Seq<(String, String)>)
    requires
        read_params(ps, args, rejections) is Ok,
    ensures
        read_params(ps, args, rejections)->Ok_0.len() == ps.len(),
        forall|i: int|
            0 <= i < ps.len() ==> read_param(#[trigger] ps[i], args, rejections) == Ok::<
                ArgModel,
                Seq<char>,
            >(read_params(ps, args, rejections)->Ok_0[i]),
    decreases ps.len(),
{
    if ps.len() > 0 {
        run_args_are_read_args(ps.drop_last(), args, rejections);
        let front = ps.drop_last();
        assert forall|i: int| 0 <= i < ps.len() implies read_param(#[trigger] ps[i], args, rejections)
            == Ok::<ArgModel, Seq<char>>(read_params(ps, args, rejections)->Ok_0[i]) by {
            if i < ps.len() - 1 {
                assert(ps[i] == front[i]);
            }
        }
    }
}

/// A refused request reports the failure of the first argument that fails,
/// in the command's order; every argument before it was read.
pub proof fn refusal_names_first_failure(ps: Seq<Param>, args: Option<JsonValue>, rejections: Seq<(String, String)>)
    requires
        read_params(ps, args, rejections) is Err,
    ensures
        exists|i: int|
            0 <= i < ps.len() && read_param(#[trigger] ps[i], args, rejections) == Err::<ArgModel, Seq<char>>(
                read_params(ps, args, rejections)->Err_0,
            ) && forall|j: int| 0 <= j < i ==> (#[trigger] read_param(ps[j], args, rejections)) is Ok,
    decreases ps.len(),
{
    let front = ps.drop_last();
    match read_params(front, args, rejections) {
        Err(e) => {
            refusal_names_first_failure(front, args, rejections);
            let i = choose|i: int|
                0 <= i < front.len() && read_param(#[trigger] front[i], args, rejections) == Err::<
                    ArgModel,
                    Seq<char>,
                >(read_params(front, args, rejections)->Err_0) && forall|j: int|
                    0 <= j < i ==> (#[trigger] read_param(front[j], args, rejections)) is Ok;
            assert(ps[i] == front[i]);
            assert forall|j: int| 0 <= j < i implies (#[trigger] read_param(ps[j], args, rejections)) is Ok by {
                assert(ps[j] == front[j]);
                assert(read_param(front[j], args, rejections) is Ok);
            }
        },
        Ok(_) => {
            run_args_are_read_args(front, args, rejections);
            let i = ps.len() - 1;
            assert forall|j: int| 0 <= j < i implies (#[trigger] read_param(ps[j], args, rejections)) is Ok by {
                assert(ps[j] == front[j]);
                assert(read_param(front[j], args, rejections) is Ok);
            }
        },
    }
}

/// A command that is not in the table is refused with 404, whatever the
/// request holds.
pub proof fn unknown_commands_are_refused(command: Seq<char>, args: Option<JsonValue>, rejections: Seq<(String, String)>)
    requires
        command_params(command) is None,
        command != "update_tray_menu"@,
        !is_open_dialog(command),
    ensures
        decide(command, args, rejections) == unknown_command(command),
{
}

/// A command that runs is the one asked for, with the arguments of its
/// table entry.
pub proof fn runs_follow_the_table(command: Seq<char>, args: Option<JsonValue>, rejections: Seq<(String, String)>)
    requires
        decide(command, args, rejections) is Run,
    ensures
        decide(command, args, rejections)->command == command,
        command_params(command) == Some(decide(command, args, rejections)->params),
{
}

/// Whether two argument documents agree on the members that `ps` reads.
pub open spec fn agree_on(a1: Option<JsonValue>, a2: Option<JsonValue>, ps: Seq<Param>) -> bool {
    forall|i: int| 0 <= i < ps.len() ==> field(a1, (#[trigger] ps[i]).key@) == field(a2, ps[i].key@)
}

proof fn lemma_read_params_agree(
    ps: Seq<Param>,
    a1: Option<JsonValue>,
    a2: Option<JsonValue>,
    rejections: Seq<(String, String)>,
)
    requires
        agree_on(a1, a2, ps),
    ensures
        read_params(ps, a1, rejections) == read_params(ps, a2, rejections),
    decreases ps.len(),
{
    if ps.len() > 0 {
        let front = ps.drop_last();
        assert(agree_on(a1, a2, front)) by {
            assert forall|i: int| 0 <= i < front.len() implies field(a1, (#[trigger] front[i]).key@)
                == field(a2, front[i].key@) by {
                assert(front[i] == ps[i]);
            }
        }
        lemma_read_params_agree(front, a1, a2, rejections);
        let last = ps.last();
        assert(field(a1, ps[ps.len() - 1].key@) == field(a2, ps[ps.len() - 1].key@));
        assert(read_param(last, a1, rejections) == read_param(last, a2, rejections));
    }
}

/// Members that a command does not read do not change what the dispatcher
/// decides: two requests whose bodies agree on the command's own arguments
/// are treated alike.
pub proof fn unread_members_do_not_matter(
    command: Seq<char>,
    a1: Option<JsonValue>,
    a2: Option<JsonValue>,
    rejections: Seq<(String, String)>,
)
    requires
        command_params(command) matches Some(ps) && agree_on(a1, a2, ps),
    ensures
        decide(command, a1, rejections) == decide(command, a2, rejections),
{
    let ps = command_params(command)->Some_0;
    lemma_read_params_agree(ps, a1, a2, rejections);
}

/// The open dialogs are never run: whatever the request holds, they are
/// answered 500 with the dialog's error, as text.
pub proof fn open_dialogs_are_answered_500(args: Option<JsonValue>, rejections: Seq<(String, String)>)
    ensures
        decide("open_file_dialog"@, args, rejections) == dialog_answer(),
        decide("open_zip_file_dialog"@, args, rejections) == dialog_answer(),
{
    reveal_strlit("update_tray_menu");
    reveal_strlit("open_file_dialog");
    reveal_strlit("open_zip_file_dialog");
    assert("open_file_dialog"@[0] != "update_tray_menu"@[0]);
    assert("open_file_dialog"@ != "update_tray_menu"@);
    assert("open_zip_file_dialog"@[0] != "update_tray_menu"@[0]);
    assert("open_zip_file_dialog"@ != "update_tray_menu"@);
}

/// The save dialog is never run either: once its default name is read it
/// is answered 500 with the dialog's error, as text (a missing name is
/// refused like any missing argument).
pub proof fn save_dialog_is_answered_500(args: Option<JsonValue>, rejections: Seq<(String, String)>)
    requires
        command_params("save_file_dialog"@) matches Some(ps) && read_params(ps, args, rejections) is Ok,
    ensures
        decide("save_file_dialog"@, args, rejections) == dialog_answer(),
{
    reveal_strlit("update_tray_menu");
    reveal_strlit("open_file_dialog");
    reveal_strlit("open_zip_file_dialog");
    reveal_strlit("save_file_dialog");
    assert("save_file_dialog"@[0] != "update_tray_menu"@[0]);
    assert("save_file_dialog"@ != "update_tray_menu"@);
    assert("save_file_dialog"@[0] != "open_file_dialog"@[0]);
    assert("save_file_dialog"@ != "open_file_dialog"@);
    assert("save_file_dialog"@[0] != "open_zip_file_dialog"@[0]);
    assert("save_file_dialog"@ != "open_zip_file_dialog"@);
}

/// Each argument is the request's member of the same name, read as its
/// kind says: a required member that is missing or of another JSON type
/// fails with the message naming its key and type, and an optional one is
/// absent; no reader makes up a value the request does not hold.
pub proof fn each_argument_is_its_member(p: Param, args: Option<JsonValue>, rejections: Seq<(String, String)>)
    ensures
        p.kind == ParamKind::ReqStr ==> read_param(p, args, rejections) == match field(args, p.key@) {
            Some(JsonValue::Str(s)) => Ok::<ArgModel, Seq<char>>(ArgModel::Str(s@)),
            _ => Err::<ArgModel, Seq<char>>("Missing required string field: "@ + p.key@),
        },
        p.kind == ParamKind::ReqBool ==> read_param(p, args, rejections) == match field(args, p.key@) {
            Some(JsonValue::Bool(b)) => Ok::<ArgModel, Seq<char>>(ArgModel::Bool(b)),
            _ => Err::<ArgModel, Seq<char>>("Missing required bool field: "@ + p.key@),
        },
        p.kind == ParamKind::ReqU32 ==> read_param(p, args, rejections) == match field(args, p.key@) {
            Some(JsonValue::Number(JsonNumber::PosInt(n))) => Ok::<ArgModel, Seq<char>>(
                ArgModel::U32(n as u32),
            ),
            _ => Err::<ArgModel, Seq<char>>("Missing required integer field: "@ + p.key@),
        },
        p.kind == ParamKind::ReqUsize ==> read_param(p, args, rejections) == match field(args, p.key@) {
            Some(JsonValue::Number(JsonNumber::PosInt(n))) => Ok::<ArgModel, Seq<char>>(
                ArgModel::Usize(n as usize),
            ),
            _ => Err::<ArgModel, Seq<char>>("Missing required integer field: "@ + p.key@),
        },
        p.kind == ParamKind::OptStr ==> read_param(p, args, rejections) == Ok::<ArgModel, Seq<char>>(
            ArgModel::OptStr(
                match field(args, p.key@) {
                    Some(JsonValue::Str(s)) => Some(s@),
                    _ => None,
                },
            ),
        ),
        p.kind == ParamKind::OptBool ==> read_param(p, args, rejections) == Ok::<ArgModel, Seq<char>>(
            ArgModel::OptBool(
                match field(args, p.key@) {
                    Some(JsonValue::Bool(b)) => Some(b),
                    _ => None,
                },
            ),
        ),
        p.kind == ParamKind::OptI64 ==> read_param(p, args, rejections) == Ok::<ArgModel, Seq<char>>(
            ArgModel::OptI64(
                match field(args, p.key@) {
                    Some(JsonValue::Number(JsonNumber::PosInt(n))) => if n <= i64::MAX {
                        Some(n as i64)
                    } else {
                        None
                    },
                    Some(JsonValue::Number(JsonNumber::NegInt(n))) => Some(n),
                    _ => None,
                },
            ),
        ),
        p.kind == ParamKind::OptU64 ==> read_param(p, args, rejections) == Ok::<ArgModel, Seq<char>>(
            ArgModel::OptU64(
                match field(args, p.key@) {
                    Some(JsonValue::Number(JsonNumber::PosInt(n))) => Some(n),
                    _ => None,
                },
            ),
        ),
        p.kind == ParamKind::OptStrList ==> read_param(p, args, rejections) == Ok::<ArgModel, Seq<char>>(
            ArgModel::OptStrList(
                match field(args, p.key@) {
                    Some(JsonValue::Array(items)) => if forall|i: int|
                        0 <= i < items@.len() ==> (#[trigger] items@[i]) is Str {
                        Some(Seq::new(items@.len(), |i: int| items@[i]->Str_0@))
                    } else {
                        None
                    },
                    _ => None,
                },
            ),
        ),
        p.kind == ParamKind::ReqTyped ==> read_param(p, args, rejections) == match field(args, p.key@) {
            None => Err::<ArgModel, Seq<char>>("Missing required field: "@ + p.key@),
            Some(_) => match lookup(rejections, p.key@) {
                Some(reason) => Err::<ArgModel, Seq<char>>("Invalid "@ + p.key@ + ": "@ + reason@),
                None => Ok::<ArgModel, Seq<char>>(ArgModel::Typed),
            },
        },
        p.kind == ParamKind::OptTyped ==> read_param(p, args, rejections) == Ok::<ArgModel, Seq<char>>(
            ArgModel::OptTyped(field(args, p.key@) is Some && lookup(rejections, p.key@) is None),
        ),
{
}

proof fn lemma_failing_param_fails_all(ps: Seq<Param>, args: Option<JsonValue>, rejections: Seq<(String, String)>, i: int)
    requires
        0 <= i < ps.len(),
        read_param(ps[i], args, rejections) is Err,
    ensures
        read_params(ps, args, rejections) is Err,
{
    let t = ps.take(i + 1);
    assert(t.drop_last() =~= ps.take(i));
    assert(t.last() == ps[i]);
    assert(read_params(t, args, rejections) is Err);
    lemma_read_params_fail(ps, args, rejections, i + 1);
}

/// A command is never run with a value the request does not hold: when any
/// argument of a known command cannot be read (a required member is missing
/// or of the wrong type, or its decoder rejects it), the request is refused
/// with 400 and an `{"error": ...}` body instead.
pub proof fn unreadable_argument_refuses(
    command: Seq<char>,
    args: Option<JsonValue>,
    rejections: Seq<(String, String)>,
    i: int,
)
    requires
        command_params(command) matches Some(ps) && 0 <= i < ps.len() && read_param(ps[i], args, rejections) is Err,
        command != "update_tray_menu"@,
        !is_open_dialog(command),
    ensures
        decide(command, args, rejections) matches RouteModel::Answer { status, content, .. } && status == 400
            && content == ContentKind::Json,
{
    let ps = command_params(command)->Some_0;
    lemma_failing_param_fails_all(ps, args, rejections, i);
}

/// A command that runs gets, for each required boolean or string argument,
/// exactly the value of the request's member of that name.
pub proof fn runs_get_the_members_values(command: Seq<char>, args: Option<JsonValue>, rejections: Seq<(String, String)>, i: int)
    requires
        decide(command, args, rejections) is Run,
        0 <= i < decide(command, args, rejections)->params.len(),
    ensures
        ({
            let ps = decide(command, args, rejections)->params;
            let vals = decide(command, args, rejections)->args;
            &&& ps[i].kind == ParamKind::ReqBool ==> vals[i] is Bool && field(args, ps[i].key@) == Some(
                JsonValue::Bool(vals[i]->Bool_0),
            )
            &&& ps[i].kind == ParamKind::ReqStr ==> vals[i] is Str && (field(args, ps[i].key@) matches Some(
                JsonValue::Str(s),
            ) && s@ == vals[i]->Str_0)
        }),
{
    let ps = decide(command, args, rejections)->params;
    run_args_are_read_args(ps, args, rejections);
    each_argument_is_its_member(ps[i], args, rejections);
}

/// `get_config_status` reads one argument, the required string member
/// `app`: a request that holds it as a string runs the command with that
/// text, and any other request is refused with 400, naming `app`.
pub proof fn config_status_reads_app(args: Option<JsonValue>, rejections: Seq<(String, String)>)
    ensures
        decide("get_config_status"@, args, rejections) == match field(args, "app"@) {
            Some(JsonValue::Str(s)) => RouteModel::Run {
                command: "get_config_status"@,
                params: seq![Param { key: "app", kind: ParamKind::ReqStr }],
                args: seq![ArgModel::Str(s@)],
            },
            _ => RouteModel::Answer {
                status: 400,
                body: error_json("Missing required string field: app"@),
                content: ContentKind::Json,
            },
        },
{
    reveal_strlit("get_config_status");
    reveal_strlit("get_providers");
    reveal_strlit("get_current_provider");
    reveal_strlit("add_provider");
    reveal_strlit("update_provider");
    reveal_strlit("delete_provider");
    reveal_strlit("remove_provider_from_live_config");
    reveal_strlit("switch_provider");
    reveal_strlit("import_default_config");
    reveal_strlit("get_claude_desktop_status");
    reveal_strlit("get_claude_desktop_default_routes");
    reveal_strlit("import_claude_desktop_providers_from_claude");
    reveal_strlit("queryProviderUsage");
    reveal_strlit("testUsageScript");
    reveal_strlit("read_live_provider_settings");
    reveal_strlit("test_api_endpoints");
    reveal_strlit("get_custom_endpoints");
    reveal_strlit("add_custom_endpoint");
    reveal_strlit("remove_custom_endpoint");
    reveal_strlit("update_endpoint_last_used");
    reveal_strlit("update_providers_sort_order");
    reveal_strlit("get_universal_providers");
    reveal_strlit("get_universal_provider");
    reveal_strlit("upsert_universal_provider");
    reveal_strlit("delete_universal_provider");
    reveal_strlit("sync_universal_provider");
    reveal_strlit("import_opencode_providers_from_live");
    reveal_strlit("get_opencode_live_provider_ids");
    reveal_strlit("get_claude_config_status");
    reveal_strlit("update_tray_menu");
    reveal_strlit("open_file_dialog");
    reveal_strlit("open_zip_file_dialog");
    reveal_strlit("save_file_dialog");
    reveal_strlit("app");
    reveal_strlit("Missing required string field: ");
    reveal_strlit("Missing required string field: app");
    let ps = seq![Param { key: "app", kind: ParamKind::ReqStr }];
    assert(provider_params("get_config_status"@) is None);
    assert(config_params("get_config_status"@) == Some(ps));
    assert(command_params("get_config_status"@) == Some(ps));
    assert(ps.drop_last() =~= Seq::<Param>::empty());
    assert("Missing required string field: "@ + "app"@ =~= "Missing required string field: app"@);
    assert(read_params(ps, args, rejections) == match read_param(ps[0], args, rejections) {
        Ok(a) => Ok::<Seq<ArgModel>, Seq<char>>(seq![a]),
        Err(e) => Err::<Seq<ArgModel>, Seq<char>>(e),
    }) by {
        assert(Seq::<ArgModel>::empty().push(ArgModel::Str(Seq::empty())) =~= seq![ArgModel::Str(Seq::empty())]);
        match read_param(ps[0], args, rejections) {
            Ok(a) => assert(Seq::<ArgModel>::empty().push(a) =~= seq![a]),
            Err(e) => {},
        }
    }
    each_argument_is_its_member(ps[0], args, rejections);
}

/// The answers the dispatcher gives without running anything: a body that
/// could not be read is answered 400 `Failed to read body` as text; the tray
/// command is answered `true`; a command the table does not know is
/// answered 404 with `{"error":"Unknown command: <name>"}` (the name as
/// written, when it holds no quote, backslash or control character).
pub proof fn answers_without_running(command: Seq<char>, args: Option<JsonValue>, rejections: Seq<(String, String)>)
    ensures
        decide_request(command, Body::Unreadable, rejections) == (RouteModel::Answer {
            status: 400,
            body: "Failed to read body"@,
            content: ContentKind::Text,
        }),
        decide("update_tray_menu"@, args, rejections) == (RouteModel::Answer {
            status: 200,
            body: "true"@,
            content: ContentKind::Json,
        }),
        (command_params(command) is None && command != "update_tray_menu"@ && !is_open_dialog(command)
            && is_plain_text(command)) ==> decide(command, args, rejections) == (RouteModel::Answer {
            status: 404,
            body: "{\"error\":\"Unknown command: "@ + command + "\"}"@,
            content: ContentKind::Json,
        }),
{
    if command_params(command) is None && command != "update_tray_menu"@ && !is_open_dialog(command)
        && is_plain_text(command) {
        let m = "Unknown command: "@ + command;
        reveal_strlit("Unknown command: ");
        assert(is_plain_text(m)) by {
            assert forall|i: int| 0 <= i < m.len() implies (#[trigger] m[i]) != '"' && m[i] != '\\' && (m[i] as int)
                >= 0x20 by {
                if i >= 17 {
                    assert(m[i] == command[i - 17]);
                }
            }
        }
        plain_text_is_quoted_as_is(m);
        reveal_strlit("{\"error\":");
        reveal_strlit("}");
        reveal_strlit("{\"error\":\"Unknown command: ");
        reveal_strlit("\"}");
        assert(error_json(m) =~= "{\"error\":\"Unknown command: "@ + command + "\"}"@);
    }
}

} // verus!
