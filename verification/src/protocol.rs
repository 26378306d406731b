//! The line protocol of the control socket.
//!
//! A client sends one line, `<command> <value>`; the daemon answers one
//! line, the answer or `ERROR <reason>`. `status` answers with
//! `bypass=.. volume=.. gain=.. bplus=.. tube=.. model=..`, which the GUI
//! reads back with [`parse_status_line`].
use vstd::prelude::*;
use crate::params::{
    level_keyword, level_parse_error, level_range_error, model_name_of, model_named, tube_name_of,
    AmpModel, Level, SharedParams, TubeModel,
};
use crate::laws::law_bypass_changes_only_on_bypass_lines;
use crate::text::{
    is_whitespace, lemma_tokens_skip_ws, lemma_tokens_word, split_once, split_once_at, str_eq,
    trim, trimmed, word_end, ws_tokens,
};

verus! {

/// What the daemon does with one command line.
pub enum CommandOutcome {
    /// Answer with this text; the command is complete.
    Reply(String),
    /// Answer with `ERROR` and this reason; nothing changed.
    Refuse(String),
    /// Set a level to the number written in this text, once it is read and
    /// found inside the level's range.
    SetLevel(Level, String),
    /// Ask the engine to switch to the tube of this name, and answer with
    /// its reply.
    SetTube(String),
    /// Ask the engine to switch to the amplifier model of this name, and
    /// answer with its reply.
    SetModel(String),
    /// Answer with the status line.
    Status,
    /// Ask the engine to stop, and answer with this text.
    Stop(String),
}

/// The abstract value of a [`CommandOutcome`].
pub enum OutcomeView {
    Reply(Seq<char>),
    Refuse(Seq<char>),
    SetLevel(Level, Seq<char>),
    SetTube(Seq<char>),
    SetModel(Seq<char>),
    Status,
    Stop(Seq<char>),
}

impl View for CommandOutcome {
    type V = OutcomeView;

    open spec fn view(&self) -> OutcomeView {
        match self {
            CommandOutcome::Reply(s) => OutcomeView::Reply(s@),
            CommandOutcome::Refuse(s) => OutcomeView::Refuse(s@),
            CommandOutcome::SetLevel(l, s) => OutcomeView::SetLevel(*l, s@),
            CommandOutcome::SetTube(s) => OutcomeView::SetTube(s@),
            CommandOutcome::SetModel(s) => OutcomeView::SetModel(s@),
            CommandOutcome::Status => OutcomeView::Status,
            CommandOutcome::Stop(s) => OutcomeView::Stop(s@),
        }
    }
}

/// What the daemon does with the (already trimmed) command line `line`.
/// The command word is what comes before the first space, the value what
/// comes after it.
pub open spec fn command_spec(line: Seq<char>) -> OutcomeView {
    let cmd = split_once(line, ' ').0;
    let val = split_once(line, ' ').1;
    if cmd == "bypass"@ {
        if val == "on"@ || val == "off"@ {
            OutcomeView::Reply("OK"@)
        } else {
            OutcomeView::Refuse("usage: bypass on|off"@)
        }
    } else if cmd == "volume"@ {
        OutcomeView::SetLevel(Level::Volume, val)
    } else if cmd == "gain"@ {
        OutcomeView::SetLevel(Level::Gain, val)
    } else if cmd == "bplus"@ {
        OutcomeView::SetLevel(Level::BPlus, val)
    } else if cmd == "tube"@ {
        OutcomeView::SetTube(val)
    } else if cmd == "model"@ {
        if model_named(val) is Some {
            OutcomeView::SetModel(val)
        } else {
            OutcomeView::Refuse("model: single, two-stage, chain"@)
        }
    } else if cmd == "status"@ {
        OutcomeView::Status
    } else if cmd == "stop"@ {
        OutcomeView::Stop("OK"@)
    } else {
        OutcomeView::Refuse("unknown command: "@ + cmd)
    }
}

/// The bypass flag after the command line `line`, when it was `before`.
pub open spec fn bypass_after(line: Seq<char>, before: bool) -> bool {
    let cmd = split_once(line, ' ').0;
    let val = split_once(line, ' ').1;
    if cmd == "bypass"@ && val == "on"@ {
        true
    } else if cmd == "bypass"@ && val == "off"@ {
        false
    } else {
        before
    }
}

/// Decides what the command line `line` asks for. `bypass on|off` is
/// carried out here; every other field of `params` is left as it was.
pub fn parse_command(line: &str, params: &mut SharedParams) -> (r: CommandOutcome)
    ensures
        r@ == command_spec(line@),
        final(params).bypass == bypass_after(line@, old(params).bypass),
        split_once(line@, ' ').0 != "bypass"@ ==> final(params).bypass == old(params).bypass,
        final(params).bypass != old(params).bypass ==> (line@ == "bypass on"@ || line@
            == "bypass off"@),
        final(params).gain == old(params).gain,
        final(params).volume == old(params).volume,
        final(params).bplus == old(params).bplus,
        final(params).tube == old(params).tube,
        final(params).model == old(params).model,
{
    proof {
        law_bypass_changes_only_on_bypass_lines(line@, params.bypass);
    }
    let (cmd, val) = split_once_at(line, ' ');
    if str_eq(cmd, "bypass") {
        if str_eq(val, "on") {
            params.bypass = true;
            CommandOutcome::Reply(String::from_str("OK"))
        } else if str_eq(val, "off") {
            params.bypass = false;
            CommandOutcome::Reply(String::from_str("OK"))
        } else {
            CommandOutcome::Refuse(String::from_str("usage: bypass on|off"))
        }
    } else if str_eq(cmd, "volume") {
        CommandOutcome::SetLevel(Level::Volume, String::from_str(val))
    } else if str_eq(cmd, "gain") {
        CommandOutcome::SetLevel(Level::Gain, String::from_str(val))
    } else if str_eq(cmd, "bplus") {
        CommandOutcome::SetLevel(Level::BPlus, String::from_str(val))
    } else if str_eq(cmd, "tube") {
        CommandOutcome::SetTube(String::from_str(val))
    } else if str_eq(cmd, "model") {
        match AmpModel::from_name(val) {
            Some(_) => CommandOutcome::SetModel(String::from_str(val)),
            None => CommandOutcome::Refuse(String::from_str("model: single, two-stage, chain")),
        }
    } else if str_eq(cmd, "status") {
        CommandOutcome::Status
    } else if str_eq(cmd, "stop") {
        CommandOutcome::Stop(String::from_str("OK"))
    } else {
        let mut msg = String::from_str("unknown command: ");
        msg.append(cmd);
        CommandOutcome::Refuse(msg)
    }
}

/// The answer to a level command, once its value was read as a number
/// (`readable`) and compared with the level's range (`in_range`): `OK`,
/// or the refusal that says which test failed.
pub open spec fn level_answer_spec(l: Level, readable: bool, in_range: bool) -> Result<
    Seq<char>,
    Seq<char>,
> {
    if !readable {
        Err(level_parse_error(l))
    } else if !in_range {
        Err(level_range_error(l))
    } else {
        Ok("OK"@)
    }
}

/// The answer to a level command, once its value was read (`readable`)
/// and compared with the level's range (`in_range`); the level is set
/// only when the answer is `Ok`.
pub fn level_answer(l: Level, readable: bool, in_range: bool) -> (r: Result<String, String>)
    ensures
        r is Ok <==> (readable && in_range),
        r is Ok ==> r->Ok_0@ == "OK"@,
        !readable ==> r is Err && r->Err_0@ == level_parse_error(l),
        readable && !in_range ==> r is Err && r->Err_0@ == level_range_error(l),
        r is Ok <==> level_answer_spec(l, readable, in_range) is Ok,
        r is Ok ==> r->Ok_0@ == level_answer_spec(l, readable, in_range)->Ok_0,
        r is Err ==> r->Err_0@ == level_answer_spec(l, readable, in_range)->Err_0,
{
    if !readable {
        Err(String::from_str(l.parse_error()))
    } else if !in_range {
        Err(String::from_str(l.range_error()))
    } else {
        Ok(String::from_str("OK"))
    }
}

/// The line sent back to the client for an answer (`Ok`) or a refusal
/// (`Err`): the answer, or `ERROR ` and the reason, ended by a newline.
pub fn response_line(answer: &Result<String, String>) -> (r: String)
    ensures
        answer is Ok ==> r@ == answer->Ok_0@ + "\n"@,
        answer is Err ==> r@ == "ERROR "@ + answer->Err_0@ + "\n"@,
{
    match answer {
        Ok(msg) => {
            let mut r = String::from_str(msg.as_str());
            r.append("\n");
            r
        },
        Err(msg) => {
            let mut r = String::from_str("ERROR ");
            r.append(msg.as_str());
            r.append("\n");
            r
        },
    }
}

/// `on` or `off`.
pub open spec fn on_off(b: bool) -> Seq<char> {
    if b {
        "on"@
    } else {
        "off"@
    }
}

/// The status line for the given state; the three levels come already
/// written out.
pub open spec fn status_line_spec(
    bypass: bool,
    volume: Seq<char>,
    gain: Seq<char>,
    bplus: Seq<char>,
    tube: Seq<char>,
    model: Seq<char>,
) -> Seq<char> {
    "bypass="@ + on_off(bypass) + " volume="@ + volume + " gain="@ + gain + " bplus="@ + bplus
        + " tube="@ + tube + " model="@ + model
}

/// The answer to `status`: the state of `params`, with the volume and the
/// gain in dB and the B+ voltage written out by the caller.
pub fn status_line(params: &SharedParams, volume_db: &str, gain_db: &str, bplus_volts: &str) -> (r:
    String)
    ensures
        r@ == status_line_spec(
            params.bypass,
            volume_db@,
            gain_db@,
            bplus_volts@,
            params.tube@,
            params.model@,
        ),
{
    let mut r = String::from_str("bypass=");
    if params.bypass {
        r.append("on");
    } else {
        r.append("off");
    }
    r.append(" volume=");
    r.append(volume_db);
    r.append(" gain=");
    r.append(gain_db);
    r.append(" bplus=");
    r.append(bplus_volts);
    r.append(" tube=");
    r.append(params.tube.as_str());
    r.append(" model=");
    r.append(params.model.as_str());
    r
}

/// The command line that switches bypass on (`true`) or off.
pub fn bypass_command(on: bool) -> (r: String)
    ensures
        r@ == "bypass "@ + on_off(on),
{
    let mut r = String::from_str("bypass ");
    if on {
        r.append("on");
    } else {
        r.append("off");
    }
    r
}

/// The command line that selects the tube `t`.
pub fn tube_command(t: TubeModel) -> (r: String)
    ensures
        r@ == "tube "@ + tube_name_of(t),
{
    let mut r = String::from_str("tube ");
    r.append(t.name());
    r
}

/// The command line that selects the amplifier model `m`.
pub fn model_command(m: AmpModel) -> (r: String)
    ensures
        r@ == "model "@ + model_name_of(m),
{
    let mut r = String::from_str("model ");
    r.append(m.name());
    r
}

/// The command line that sets the level `l` to the number written in `value`.
pub fn level_command(l: Level, value: &str) -> (r: String)
    ensures
        r@ == level_keyword(l) + " "@ + value@,
{
    let mut r = String::from_str(l.keyword());
    r.append(" ");
    r.append(value);
    r
}

/// The fields of a status line, each as last given; `None` for a field the
/// line does not give.
pub struct StatusUpdate {
    pub bypass: Option<bool>,
    pub volume: Option<String>,
    pub gain: Option<String>,
    pub bplus: Option<String>,
    pub tube: Option<String>,
    pub model: Option<String>,
}

/// The abstract value of a [`StatusUpdate`].
pub struct StatusView {
    pub bypass: Option<bool>,
    pub volume: Option<Seq<char>>,
    pub gain: Option<Seq<char>>,
    pub bplus: Option<Seq<char>>,
    pub tube: Option<Seq<char>>,
    pub model: Option<Seq<char>>,
}

pub open spec fn opt_view(o: Option<String>) -> Option<Seq<char>> {
    match o {
        Some(s) => Some(s@),
        None => None,
    }
}

impl View for StatusUpdate {
    type V = StatusView;

    open spec fn view(&self) -> StatusView {
        StatusView {
            bypass: self.bypass,
            volume: opt_view(self.volume),
            gain: opt_view(self.gain),
            bplus: opt_view(self.bplus),
            tube: opt_view(self.tube),
            model: opt_view(self.model),
        }
    }
}

/// The view in which no field is given.
pub open spec fn no_status() -> StatusView {
    StatusView { bypass: None, volume: None, gain: None, bplus: None, tube: None, model: None }
}

/// One `key=value` word of a status line applied to `st`: the key is what
/// comes before the first `=`, the value what comes after it. `bypass` is
/// on exactly when its value is `on`; unknown keys change nothing.
pub open spec fn apply_status_word(st: StatusView, word: Seq<char>) -> StatusView {
    let key = split_once(word, '=').0;
    let val = split_once(word, '=').1;
    if key == "bypass"@ {
        StatusView { bypass: Some(val == "on"@), ..st }
    } else if key == "volume"@ {
        StatusView { volume: Some(val), ..st }
    } else if key == "gain"@ {
        StatusView { gain: Some(val), ..st }
    } else if key == "bplus"@ {
        StatusView { bplus: Some(val), ..st }
    } else if key == "tube"@ {
        StatusView { tube: Some(val), ..st }
    } else if key == "model"@ {
        StatusView { model: Some(val), ..st }
    } else {
        st
    }
}

/// The words applied in order.
pub open spec fn apply_status_words(st: StatusView, words: Seq<Seq<char>>) -> StatusView
    decreases words.len(),
{
    if words.len() == 0 {
        st
    } else {
        apply_status_words(apply_status_word(st, words[0]), words.drop_first())
    }
}

/// What a status line gives: its whitespace-separated words applied in order.
pub open spec fn status_of_line(line: Seq<char>) -> StatusView {
    apply_status_words(no_status(), ws_tokens(line))
}

/// Applies one `key=value` word to `st`.
fn apply_word(st: &mut StatusUpdate, word: &str)
    ensures
        final(st)@ == apply_status_word(old(st)@, word@),
{
    let (key, val) = split_once_at(word, '=');
    if str_eq(key, "bypass") {
        st.bypass = Some(str_eq(val, "on"));
    } else if str_eq(key, "volume") {
        st.volume = Some(String::from_str(val));
    } else if str_eq(key, "gain") {
        st.gain = Some(String::from_str(val));
    } else if str_eq(key, "bplus") {
        st.bplus = Some(String::from_str(val));
    } else if str_eq(key, "tube") {
        st.tube = Some(String::from_str(val));
    } else if str_eq(key, "model") {
        st.model = Some(String::from_str(val));
    }
}

/// Reads a status line: for each field, the value of its last
/// `key=value` word.
pub fn parse_status_line(line: &str) -> (r: StatusUpdate)
    ensures
        r@ == status_of_line(line@),
{
    let mut st = StatusUpdate {
        bypass: None,
        volume: None,
        gain: None,
        bplus: None,
        tube: None,
        model: None,
    };
    let n: usize = line.unicode_len();
    let mut i: usize = 0;
    assert(line@.skip(0) =~= line@);
    while i < n
        invariant
            n == line@.len(),
            i <= n,
            status_of_line(line@) == apply_status_words(st@, ws_tokens(line@.skip(i as int))),
        decreases n - i,
    {
        if is_whitespace(line.get_char(i)) {
            proof {
                lemma_tokens_skip_ws(line@, i as int);
            }
            i = i + 1;
        } else {
            let j: usize = word_end(line, i);
            let word = line.substring_char(i, j);
            proof {
                lemma_tokens_word(line@, i as int, j as int);
                let words = seq![line@.subrange(i as int, j as int)] + ws_tokens(
                    line@.skip(j as int),
                );
                assert(words[0] == word@);
                assert(words.drop_first() =~= ws_tokens(line@.skip(j as int)));
            }
            apply_word(&mut st, word);
            i = j;
        }
    }
    assert(line@.skip(n as int) =~= Seq::<char>::empty());
    st
}

/// What the GUI's connection thread received from the GUI while it waited.
pub enum ClientEvent {
    /// A command line to send to the daemon.
    Send(String),
    /// The GUI asks the daemon to stop.
    Quit,
    /// Nothing arrived in time.
    Timeout,
    /// The GUI has gone away.
    Disconnected,
}

/// What the connection thread does next.
pub enum ClientAction {
    /// Send this line, read the answer and go on as [`after_answer`] says.
    Exchange(String),
    /// Send this line, read the status line it is answered with and apply it.
    PollStatus(String),
    /// Send this line and end.
    SendAndEnd(String),
    /// End.
    End,
}

/// Decides what the GUI's connection thread does with what it received:
/// a command is sent, a stop request sends `stop` and ends, a quiet
/// moment polls the status, and a vanished GUI ends the thread.
pub fn client_step(event: &ClientEvent) -> (r: ClientAction)
    ensures
        event matches ClientEvent::Send(line) ==> (r matches ClientAction::Exchange(l) && l@
            == line@),
        event is Quit ==> (r matches ClientAction::SendAndEnd(l) && l@ == "stop"@),
        event is Timeout ==> (r matches ClientAction::PollStatus(l) && l@ == "status"@),
        event is Disconnected ==> r is End,
{
    match event {
        ClientEvent::Send(line) => ClientAction::Exchange(String::from_str(line.as_str())),
        ClientEvent::Quit => ClientAction::SendAndEnd(String::from_str("stop")),
        ClientEvent::Timeout => ClientAction::PollStatus(String::from_str("status")),
        ClientEvent::Disconnected => ClientAction::End,
    }
}

/// What follows the daemon's answer to a command line the GUI sent.
pub struct AfterAnswer {
    /// The message the GUI shows: the answer without surrounding whitespace.
    pub message: String,
    /// The line to send next, whose answer is the status line to apply;
    /// none when the daemon was told to stop and the thread ends.
    pub next: Option<String>,
}

/// The message to show for the answer to the command line `sent`, and
/// what follows it: a `status` request, unless `sent` was `stop`.
pub fn after_answer(sent: &str, answer: &str) -> (r: AfterAnswer)
    ensures
        r.message@ == trimmed(answer@),
        sent@ != "stop"@ ==> (r.next matches Some(l) && l@ == "status"@),
        sent@ == "stop"@ ==> r.next is None,
{
    let next = if str_eq(sent, "stop") {
        None
    } else {
        Some(String::from_str("status"))
    };
    AfterAnswer { message: String::from_str(trim(answer)), next }
}

} // verus!
