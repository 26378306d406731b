//! Properties that relate several parts of the library: what one side of
//! the control protocol writes, the other side reads back.
use vstd::prelude::*;
use crate::params::{
    level_keyword, level_parse_error, level_range, level_range_error, model_index_of, model_name_of,
    model_named, tube_index_of, tube_name_of, tube_named, AmpModel, Level, MainCommand, TubeModel,
};
use crate::protocol::{
    apply_status_word, apply_status_words, bypass_after, command_spec, level_answer_spec,
    no_status, on_off, status_line_spec, status_of_line, OutcomeView, StatusView,
};
use crate::engine::{model_after, names_loopback, names_virtual, tube_after, Incoming};
use crate::monitor::{
    byte_char, code_of, fits_target_spec, fourcc_spec, is_difference, OutputTarget,
};
use crate::text::{
    contains_seq, first_index_of, is_ws, lemma_first_index_bounds, lemma_first_index_unique,
    lemma_leading_word_len_exact, no_ws, split_once, ws_tokens,
};

verus! {

/// Every tube of the catalogue is found again by its name.
pub proof fn law_tube_name_round_trip(t: TubeModel)
    ensures
        tube_named(tube_name_of(t)) == Some(t),
{
    reveal_strlit("12AX7");
    reveal_strlit("12AU7");
    reveal_strlit("12AT7");
    reveal_strlit("6DJ8");
    reveal_strlit("6L6GC");
    reveal_strlit("6550");
    reveal_strlit("EL34");
    reveal_strlit("KT88");
    match t {
        TubeModel::Tube12AX7 => {
            assert(tube_name_of(t) =~= "12AX7"@);
            assert(tube_named(tube_name_of(t)) == Some(t));
        },
        TubeModel::Tube12AU7 => {
            assert("12AU7"@[3] != "12AX7"@[3]);
            assert(tube_named(tube_name_of(t)) == Some(t));
        },
        TubeModel::Tube12AT7 => {
            assert("12AT7"@[3] != "12AX7"@[3]);
            assert("12AT7"@[3] != "12AU7"@[3]);
            assert(tube_named(tube_name_of(t)) == Some(t));
        },
        TubeModel::Tube6DJ8 => {
            assert("6DJ8"@.len() != "12AX7"@.len());
            assert("6DJ8"@.len() != "12AU7"@.len());
            assert("6DJ8"@.len() != "12AT7"@.len());
            assert(tube_named(tube_name_of(t)) == Some(t));
        },
        TubeModel::Tube6L6GC => {
            assert("6L6GC"@[0] != "12AX7"@[0]);
            assert("6L6GC"@[0] != "12AU7"@[0]);
            assert("6L6GC"@[0] != "12AT7"@[0]);
            assert("6L6GC"@.len() != "6DJ8"@.len());
            assert(tube_named(tube_name_of(t)) == Some(t));
        },
        TubeModel::Tube6550 => {
            assert("6550"@.len() != "12AX7"@.len());
            assert("6550"@.len() != "12AU7"@.len());
            assert("6550"@.len() != "12AT7"@.len());
            assert("6550"@[1] != "6DJ8"@[1]);
            assert("6550"@.len() != "6L6GC"@.len());
            assert(tube_named(tube_name_of(t)) == Some(t));
        },
        TubeModel::TubeEL34 => {
            assert("EL34"@.len() != "12AX7"@.len());
            assert("EL34"@.len() != "12AU7"@.len());
            assert("EL34"@.len() != "12AT7"@.len());
            assert("EL34"@[0] != "6DJ8"@[0]);
            assert("EL34"@.len() != "6L6GC"@.len());
            assert("EL34"@[0] != "6550"@[0]);
            assert(tube_named(tube_name_of(t)) == Some(t));
        },
        TubeModel::TubeKT88 => {
            assert("KT88"@.len() != "12AX7"@.len());
            assert("KT88"@.len() != "12AU7"@.len());
            assert("KT88"@.len() != "12AT7"@.len());
            assert("KT88"@[0] != "6DJ8"@[0]);
            assert("KT88"@.len() != "6L6GC"@.len());
            assert("KT88"@[0] != "6550"@[0]);
            assert("KT88"@[0] != "EL34"@[0]);
            assert(tube_named(tube_name_of(t)) == Some(t));
        },
    }
}

/// Every amplifier model of the catalogue is found again by its name.
pub proof fn law_model_name_round_trip(m: AmpModel)
    ensures
        model_named(model_name_of(m)) == Some(m),
{
    reveal_strlit("single");
    reveal_strlit("two-stage");
    reveal_strlit("chain");
    match m {
        AmpModel::Single => {
            assert(model_name_of(m) =~= "single"@);
            assert(model_named(model_name_of(m)) == Some(m));
        },
        AmpModel::TwoStage => {
            assert("two-stage"@.len() != "single"@.len());
            assert(model_named(model_name_of(m)) == Some(m));
        },
        AmpModel::Chain => {
            assert("chain"@.len() != "single"@.len());
            assert("chain"@.len() != "two-stage"@.len());
            assert(model_named(model_name_of(m)) == Some(m));
        },
    }
}

/// A word `k=v` whose key holds no `=` splits into `k` and `v`.
proof fn lemma_split_key(k: Seq<char>, v: Seq<char>)
    requires
        forall|i: int| 0 <= i < k.len() ==> k[i] != '=',
    ensures
        split_once(k + seq!['='] + v, '=') == (k, v),
{
    let w = k + seq!['='] + v;
    assert forall|i: int| 0 <= i < k.len() implies #[trigger] w[i] != '=' by {
        assert(w[i] == k[i]);
    }
    lemma_first_index_unique(w, '=', k.len() as int);
    assert(w.take(k.len() as int) =~= k);
    assert(w.skip(k.len() as int + 1) =~= v);
}

/// A non-empty word without whitespace, a space, then the rest: the word
/// is the first token.
proof fn lemma_word_then_rest(w: Seq<char>, rest: Seq<char>)
    requires
        w.len() > 0,
        no_ws(w),
    ensures
        ws_tokens(w + seq![' '] + rest) == seq![w] + ws_tokens(rest),
{
    let s = w + seq![' '] + rest;
    assert forall|k: int| 0 <= k < w.len() implies !is_ws(#[trigger] s[k]) by {
        assert(s[k] == w[k]);
    }
    assert(s[w.len() as int] == ' ');
    lemma_leading_word_len_exact(s, w.len() as int);
    assert(s[0] == w[0]);
    assert(s.take(w.len() as int) =~= w);
    let t = s.skip(w.len() as int);
    assert(t =~= seq![' '] + rest);
    assert(t.drop_first() =~= rest);
    assert(t[0] == ' ');
    assert(ws_tokens(t) == ws_tokens(rest));
    assert(ws_tokens(s) == seq![s.take(w.len() as int)] + ws_tokens(t));
}

/// A non-empty word without whitespace is its only token.
proof fn lemma_last_word(w: Seq<char>)
    requires
        w.len() > 0,
        no_ws(w),
    ensures
        ws_tokens(w) == seq![w],
{
    lemma_leading_word_len_exact(w, w.len() as int);
    assert(w.take(w.len() as int) =~= w);
    let e = w.skip(w.len() as int);
    assert(e =~= Seq::<char>::empty());
    assert(ws_tokens(e) =~= Seq::<Seq<char>>::empty());
    assert(ws_tokens(w) == seq![w.take(w.len() as int)] + ws_tokens(e));
    assert(seq![w] + Seq::<Seq<char>>::empty() =~= seq![w]);
}

/// Applying a first word, then the rest.
proof fn lemma_apply_first(st: StatusView, w: Seq<char>, rest: Seq<Seq<char>>)
    ensures
        apply_status_words(st, seq![w] + rest) == apply_status_words(apply_status_word(st, w), rest),
{
    let ws = seq![w] + rest;
    assert(ws[0] == w);
    assert(ws.drop_first() =~= rest);
}

/// Whether `s` holds no whitespace and no `=`.
spec fn plain(s: Seq<char>) -> bool {
    forall|i: int| 0 <= i < s.len() ==> !is_ws(#[trigger] s[i]) && s[i] != '='
}

/// The word `k=v`.
spec fn field(k: Seq<char>, v: Seq<char>) -> Seq<char> {
    k + seq!['='] + v
}

proof fn lemma_field_no_ws(k: Seq<char>, v: Seq<char>)
    requires
        plain(k),
        no_ws(v),
    ensures
        no_ws(field(k, v)),
        field(k, v).len() > 0,
        split_once(field(k, v), '=') == (k, v),
{
    let f = field(k, v);
    assert forall|i: int| 0 <= i < f.len() implies !is_ws(#[trigger] f[i]) by {
        if i < k.len() {
            assert(f[i] == k[i]);
        } else if i > k.len() {
            assert(f[i] == v[i - k.len() - 1]);
        }
    }
    lemma_split_key(k, v);
}

/// What the daemon writes on `status`, the GUI reads back: the bypass
/// flag, the three levels as written, the tube and the model, provided
/// none of the written values holds whitespace.
#[verifier::rlimit(60)]
pub proof fn law_status_round_trip(
    bypass: bool,
    volume: Seq<char>,
    gain: Seq<char>,
    bplus: Seq<char>,
    tube: Seq<char>,
    model: Seq<char>,
)
    requires
        no_ws(volume),
        no_ws(gain),
        no_ws(bplus),
        no_ws(tube),
        no_ws(model),
    ensures
        status_of_line(status_line_spec(bypass, volume, gain, bplus, tube, model)) == (StatusView {
            bypass: Some(bypass),
            volume: Some(volume),
            gain: Some(gain),
            bplus: Some(bplus),
            tube: Some(tube),
            model: Some(model),
        }),
{
    reveal_strlit("bypass=");
    reveal_strlit(" volume=");
    reveal_strlit(" gain=");
    reveal_strlit(" bplus=");
    reveal_strlit(" tube=");
    reveal_strlit(" model=");
    reveal_strlit("bypass");
    reveal_strlit("volume");
    reveal_strlit("gain");
    reveal_strlit("bplus");
    reveal_strlit("tube");
    reveal_strlit("model");
    reveal_strlit("on");
    reveal_strlit("off");
    let oo = on_off(bypass);
    assert(no_ws(oo));
    assert(plain("bypass"@));
    assert(plain("volume"@));
    assert(plain("gain"@));
    assert(plain("bplus"@));
    assert(plain("tube"@));
    assert(plain("model"@));
    let f1 = field("bypass"@, oo);
    let f2 = field("volume"@, volume);
    let f3 = field("gain"@, gain);
    let f4 = field("bplus"@, bplus);
    let f5 = field("tube"@, tube);
    let f6 = field("model"@, model);
    lemma_field_no_ws("bypass"@, oo);
    lemma_field_no_ws("volume"@, volume);
    lemma_field_no_ws("gain"@, gain);
    lemma_field_no_ws("bplus"@, bplus);
    lemma_field_no_ws("tube"@, tube);
    lemma_field_no_ws("model"@, model);
    let sp = seq![' '];
    let r5 = f5 + sp + f6;
    let r4 = f4 + sp + r5;
    let r3 = f3 + sp + r4;
    let r2 = f2 + sp + r3;
    let line = f1 + sp + r2;
    assert(status_line_spec(bypass, volume, gain, bplus, tube, model) =~= line);
    lemma_last_word(f6);
    lemma_word_then_rest(f5, f6);
    lemma_word_then_rest(f4, r5);
    lemma_word_then_rest(f3, r4);
    lemma_word_then_rest(f2, r3);
    lemma_word_then_rest(f1, r2);
    let st0 = no_status();
    let st1 = apply_status_word(st0, f1);
    let st2 = apply_status_word(st1, f2);
    let st3 = apply_status_word(st2, f3);
    let st4 = apply_status_word(st3, f4);
    let st5 = apply_status_word(st4, f5);
    let st6 = apply_status_word(st5, f6);
    lemma_apply_first(st0, f1, ws_tokens(r2));
    lemma_apply_first(st1, f2, ws_tokens(r3));
    lemma_apply_first(st2, f3, ws_tokens(r4));
    lemma_apply_first(st3, f4, ws_tokens(r5));
    lemma_apply_first(st4, f5, ws_tokens(f6));
    lemma_apply_first(st5, f6, Seq::empty());
    assert(ws_tokens(f6) =~= seq![f6] + Seq::<Seq<char>>::empty());
    assert(st1.bypass == Some(bypass));
}

/// The command line that the GUI sends to switch bypass sets bypass to
/// exactly that value, and is answered `OK`.
pub proof fn law_bypass_command_applies(on: bool, before: bool)
    ensures
        command_spec("bypass "@ + on_off(on)) == OutcomeView::Reply("OK"@),
        bypass_after("bypass "@ + on_off(on), before) == on,
{
    reveal_strlit("bypass ");
    reveal_strlit("bypass");
    reveal_strlit("on");
    reveal_strlit("off");
    let line = "bypass "@ + on_off(on);
    assert(line =~= "bypass"@ + seq![' '] + on_off(on));
    lemma_split_at_space("bypass"@, on_off(on));
}

/// A command word without a space, a space, then a value: the split gives
/// back the word and the value.
proof fn lemma_split_at_space(k: Seq<char>, v: Seq<char>)
    requires
        forall|i: int| 0 <= i < k.len() ==> k[i] != ' ',
    ensures
        split_once(k + seq![' '] + v, ' ') == (k, v),
{
    let w = k + seq![' '] + v;
    assert forall|i: int| 0 <= i < k.len() implies #[trigger] w[i] != ' ' by {
        assert(w[i] == k[i]);
    }
    lemma_first_index_unique(w, ' ', k.len() as int);
    assert(w.take(k.len() as int) =~= k);
    assert(w.skip(k.len() as int + 1) =~= v);
}

/// The command line that the GUI sends to select a tube asks the engine
/// for that very tube, which the engine knows.
pub proof fn law_tube_command_applies(t: TubeModel)
    ensures
        command_spec("tube "@ + tube_name_of(t)) == OutcomeView::SetTube(tube_name_of(t)),
        tube_named(tube_name_of(t)) == Some(t),
{
    reveal_strlit("tube ");
    reveal_strlit("tube");
    reveal_strlit("bypass");
    reveal_strlit("volume");
    reveal_strlit("gain");
    reveal_strlit("bplus");
    assert("tube "@ + tube_name_of(t) =~= "tube"@ + seq![' '] + tube_name_of(t));
    lemma_split_at_space("tube"@, tube_name_of(t));
    law_tube_name_round_trip(t);
}

/// The command line that the GUI sends to select an amplifier model is
/// passed on to the engine unchanged.
pub proof fn law_model_command_applies(m: AmpModel)
    ensures
        command_spec("model "@ + model_name_of(m)) == OutcomeView::SetModel(model_name_of(m)),
{
    reveal_strlit("model ");
    reveal_strlit("model");
    reveal_strlit("tube");
    reveal_strlit("bypass");
    reveal_strlit("volume");
    reveal_strlit("gain");
    reveal_strlit("bplus");
    assert("model "@ + model_name_of(m) =~= "model"@ + seq![' '] + model_name_of(m));
    lemma_split_at_space("model"@, model_name_of(m));
    law_model_name_round_trip(m);
}

/// The command line that the GUI sends to set a level hands that level
/// the written value, whatever it is.
pub proof fn law_level_command_applies(l: Level, value: Seq<char>)
    ensures
        command_spec(level_keyword(l) + " "@ + value) == OutcomeView::SetLevel(l, value),
{
    reveal_strlit(" ");
    reveal_strlit("bypass");
    reveal_strlit("volume");
    reveal_strlit("gain");
    reveal_strlit("bplus");
    let k = level_keyword(l);
    assert(k + " "@ + value =~= k + seq![' '] + value);
    lemma_split_at_space(k, value);
}

proof fn lemma_byte_split(b0: int, b1: int, b2: int, b3: int)
    requires
        0 <= b0 < 256,
        0 <= b1 < 256,
        0 <= b2 < 256,
        0 <= b3 < 256,
    ensures
        ({
            let v = b0 * 0x1000000 + b1 * 0x10000 + b2 * 0x100 + b3;
            &&& v / 0x1000000 == b0
            &&& (v / 0x10000) % 0x100 == b1
            &&& (v / 0x100) % 0x100 == b2
            &&& v % 0x100 == b3
        }),
{
    let v = b0 * 0x1000000 + b1 * 0x10000 + b2 * 0x100 + b3;
    assert(v / 0x1000000 == b0) by (nonlinear_arith)
        requires
            v == b0 * 0x1000000 + b1 * 0x10000 + b2 * 0x100 + b3,
            0 <= b1 < 256,
            0 <= b2 < 256,
            0 <= b3 < 256,
    ;
    assert(v / 0x10000 == b0 * 0x100 + b1) by (nonlinear_arith)
        requires
            v == b0 * 0x1000000 + b1 * 0x10000 + b2 * 0x100 + b3,
            0 <= b1 < 256,
            0 <= b2 < 256,
            0 <= b3 < 256,
    ;
    assert((b0 * 0x100 + b1) % 0x100 == b1) by (nonlinear_arith)
        requires
            0 <= b1 < 256,
            0 <= b0,
    ;
    assert(v / 0x100 == b0 * 0x10000 + b1 * 0x100 + b2) by (nonlinear_arith)
        requires
            v == b0 * 0x1000000 + b1 * 0x10000 + b2 * 0x100 + b3,
            0 <= b2 < 256,
            0 <= b3 < 256,
    ;
    assert((b0 * 0x10000 + b1 * 0x100 + b2) % 0x100 == b2) by (nonlinear_arith)
        requires
            0 <= b2 < 256,
            0 <= b0,
            0 <= b1,
    ;
    assert(v % 0x100 == b3) by (nonlinear_arith)
        requires
            v == b0 * 0x1000000 + b1 * 0x10000 + b2 * 0x100 + b3,
            0 <= b3 < 256,
            0 <= b0,
            0 <= b1,
            0 <= b2,
    ;
}

/// Writing out the code of four bytes gives back those four bytes, in
/// order, as characters.
pub proof fn law_fourcc_of_code(b: [u8; 4])
    ensures
        fourcc_spec(code_of(b)) == seq![
            byte_char(b[0] as int),
            byte_char(b[1] as int),
            byte_char(b[2] as int),
            byte_char(b[3] as int),
        ],
{
    let v = b[0] as int * 0x1000000 + b[1] as int * 0x10000 + b[2] as int * 0x100 + b[3] as int;
    lemma_byte_split(b[0] as int, b[1] as int, b[2] as int, b[3] as int);
    assert(0 <= v < 0x100000000);
    assert(code_of(b) as int == v);
}

/// Two codes that are written out alike are the same code.
pub proof fn law_fourcc_injective(x: u32, y: u32)
    requires
        fourcc_spec(x) == fourcc_spec(y),
    ensures
        x == y,
{
    let fx = fourcc_spec(x);
    let fy = fourcc_spec(y);
    assert(fx[0] == fy[0] && fx[1] == fy[1] && fx[2] == fy[2] && fx[3] == fy[3]);
    let x0 = x as int / 0x1000000;
    let x1 = (x as int / 0x10000) % 0x100;
    let x2 = (x as int / 0x100) % 0x100;
    let x3 = x as int % 0x100;
    let y0 = y as int / 0x1000000;
    let y1 = (y as int / 0x10000) % 0x100;
    let y2 = (y as int / 0x100) % 0x100;
    let y3 = y as int % 0x100;
    assert(x0 < 0x100 && y0 < 0x100);
    assert((x0 as char) as int == x0 && (y0 as char) as int == y0);
    assert((x1 as char) as int == x1 && (y1 as char) as int == y1);
    assert((x2 as char) as int == x2 && (y2 as char) as int == y2);
    assert((x3 as char) as int == x3 && (y3 as char) as int == y3);
    assert(x as int == x0 * 0x1000000 + x1 * 0x10000 + x2 * 0x100 + x3) by (nonlinear_arith)
        requires
            x0 == x as int / 0x1000000,
            x1 == (x as int / 0x10000) % 0x100,
            x2 == (x as int / 0x100) % 0x100,
            x3 == x as int % 0x100,
            0 <= x,
    ;
    assert(y as int == y0 * 0x1000000 + y1 * 0x10000 + y2 * 0x100 + y3) by (nonlinear_arith)
        requires
            y0 == y as int / 0x1000000,
            y1 == (y as int / 0x10000) % 0x100,
            y2 == (y as int / 0x100) % 0x100,
            y3 == y as int % 0x100,
            0 <= y,
    ;
}

/// When the devices present now are the devices known before, nothing
/// was added and nothing removed, so no output switch happens.
pub proof fn law_same_devices_no_change(
    known: Set<u32>,
    current: Set<u32>,
    added: Seq<u32>,
    removed: Seq<u32>,
)
    requires
        current == known,
        is_difference(added, current, known),
        is_difference(removed, known, current),
    ensures
        added.len() == 0,
        removed.len() == 0,
{
    if added.len() > 0 {
        assert(added.contains(added[0]));
    }
    if removed.len() > 0 {
        assert(removed.contains(removed[0]));
    }
}

/// No device is reported both as added and as removed.
pub proof fn law_added_removed_disjoint(
    known: Set<u32>,
    current: Set<u32>,
    added: Seq<u32>,
    removed: Seq<u32>,
    x: u32,
)
    requires
        is_difference(added, current, known),
        is_difference(removed, known, current),
    ensures
        !(added.contains(x) && removed.contains(x)),
{
}

/// The names in the tube and model catalogues hold no whitespace.
pub proof fn law_catalogue_names_plain(t: TubeModel, m: AmpModel)
    ensures
        no_ws(tube_name_of(t)),
        no_ws(model_name_of(m)),
{
    reveal_strlit("12AX7");
    reveal_strlit("12AU7");
    reveal_strlit("12AT7");
    reveal_strlit("6DJ8");
    reveal_strlit("6L6GC");
    reveal_strlit("6550");
    reveal_strlit("EL34");
    reveal_strlit("KT88");
    reveal_strlit("single");
    reveal_strlit("two-stage");
    reveal_strlit("chain");
}

/// After the GUI switches bypass, the next status line it reads back
/// shows the new setting, whatever the other fields are, as long as the
/// tube and the model are catalogue entries and the levels are written
/// without whitespace.
pub proof fn law_bypass_switch_seen_in_status(
    on: bool,
    before: bool,
    volume: Seq<char>,
    gain: Seq<char>,
    bplus: Seq<char>,
    t: TubeModel,
    m: AmpModel,
)
    requires
        no_ws(volume),
        no_ws(gain),
        no_ws(bplus),
    ensures
        status_of_line(
            status_line_spec(
                bypass_after("bypass "@ + on_off(on), before),
                volume,
                gain,
                bplus,
                tube_name_of(t),
                model_name_of(m),
            ),
        ).bypass == Some(on),
{
    law_bypass_command_applies(on, before);
    law_catalogue_names_plain(t, m);
    law_status_round_trip(on, volume, gain, bplus, tube_name_of(t), model_name_of(m));
}

/// A catalogue tube that reaches the engine is the one it stores, and the
/// next status line reports it, whatever the other fields are, as long as
/// the model is a catalogue entry and the levels are written without
/// whitespace.
pub proof fn law_selected_tube_seen_in_status(
    incoming: Incoming,
    t: TubeModel,
    before: Seq<char>,
    bypass: bool,
    volume: Seq<char>,
    gain: Seq<char>,
    bplus: Seq<char>,
    m: AmpModel,
)
    requires
        incoming matches Incoming::Command(MainCommand::SetTube { tube, .. }) && tube@
            == tube_name_of(t),
        no_ws(volume),
        no_ws(gain),
        no_ws(bplus),
    ensures
        tube_after(incoming, before) == tube_name_of(t),
        status_of_line(
            status_line_spec(
                bypass,
                volume,
                gain,
                bplus,
                tube_after(incoming, before),
                model_name_of(m),
            ),
        ).tube == Some(tube_name_of(t)),
{
    law_tube_name_round_trip(t);
    law_catalogue_names_plain(t, m);
    law_status_round_trip(bypass, volume, gain, bplus, tube_name_of(t), model_name_of(m));
}

/// After every poll of the device list, the known devices are the
/// devices present now: either the list changed and they were taken
/// over, or nothing was added or removed and the two are the same.
pub proof fn law_known_devices_follow(
    known: Set<u32>,
    current: Set<u32>,
    added: Seq<u32>,
    removed: Seq<u32>,
    target: Option<OutputTarget>,
    known_after: Set<u32>,
)
    requires
        is_difference(added, current, known),
        is_difference(removed, known, current),
        added.len() == 0 && removed.len() == 0 ==> target is None,
        added.len() > 0 || removed.len() > 0 ==> target is Some,
        target is Some ==> known_after == current,
        target is None ==> known_after == known,
    ensures
        known_after == current,
{
    if target is None {
        assert forall|x: u32| current.contains(x) <==> known.contains(x) by {
            if current.contains(x) && !known.contains(x) {
                assert(added.contains(x));
            }
            if known.contains(x) && !current.contains(x) {
                assert(removed.contains(x));
            }
        }
        assert(current =~= known);
    }
}

/// Each tube of the catalogue is selected by its own type name, and the
/// selectors list the tubes in this order: 12AX7, 12AU7, 12AT7, 6DJ8,
/// 6L6GC, 6550, EL34, KT88.
pub proof fn law_tube_catalogue()
    ensures
        tube_name_of(TubeModel::Tube12AX7) == "12AX7"@,
        tube_name_of(TubeModel::Tube12AU7) == "12AU7"@,
        tube_name_of(TubeModel::Tube12AT7) == "12AT7"@,
        tube_name_of(TubeModel::Tube6DJ8) == "6DJ8"@,
        tube_name_of(TubeModel::Tube6L6GC) == "6L6GC"@,
        tube_name_of(TubeModel::Tube6550) == "6550"@,
        tube_name_of(TubeModel::TubeEL34) == "EL34"@,
        tube_name_of(TubeModel::TubeKT88) == "KT88"@,
        tube_index_of(TubeModel::Tube12AX7) == 0,
        tube_index_of(TubeModel::Tube12AU7) == 1,
        tube_index_of(TubeModel::Tube12AT7) == 2,
        tube_index_of(TubeModel::Tube6DJ8) == 3,
        tube_index_of(TubeModel::Tube6L6GC) == 4,
        tube_index_of(TubeModel::Tube6550) == 5,
        tube_index_of(TubeModel::TubeEL34) == 6,
        tube_index_of(TubeModel::TubeKT88) == 7,
{
}

/// Each amplifier model is selected by its own name, and the selectors
/// list them in this order: single, two-stage, chain.
pub proof fn law_model_catalogue()
    ensures
        model_name_of(AmpModel::Single) == "single"@,
        model_name_of(AmpModel::TwoStage) == "two-stage"@,
        model_name_of(AmpModel::Chain) == "chain"@,
        model_index_of(AmpModel::Single) == 0,
        model_index_of(AmpModel::TwoStage) == 1,
        model_index_of(AmpModel::Chain) == 2,
{
}

/// The three levels: the command word that sets each, its accepted range
/// and its two refusals.
pub proof fn law_level_catalogue()
    ensures
        level_keyword(Level::Volume) == "volume"@,
        level_keyword(Level::Gain) == "gain"@,
        level_keyword(Level::BPlus) == "bplus"@,
        level_range(Level::Volume) == (-60int, 12int),
        level_range(Level::Gain) == (-96int, 10int),
        level_range(Level::BPlus) == (50int, 600int),
        level_parse_error(Level::Volume) == "invalid volume"@,
        level_parse_error(Level::Gain) == "invalid gain"@,
        level_parse_error(Level::BPlus) == "invalid voltage"@,
        level_range_error(Level::Volume) == "volume range: -60..+12 dB"@,
        level_range_error(Level::Gain) == "gain range: -96..+10 dB"@,
        level_range_error(Level::BPlus) == "bplus range: 50..600 V"@,
{
}

/// A name finds a tube only if it is that tube's name, and finds the
/// tube whose name it is: the lookup and the names agree, so no name
/// selects another tube than the one it names.
pub proof fn law_tube_lookup_exact(name: Seq<char>, t: TubeModel)
    ensures
        tube_named(name) is Some ==> tube_name_of(tube_named(name)->0) == name,
        tube_named(name) == Some(t) <==> tube_name_of(t) == name,
{
    law_tube_name_round_trip(t);
}

/// A name finds an amplifier model only if it is that model's name, and
/// then finds the model whose name it is.
pub proof fn law_model_lookup_exact(name: Seq<char>, m: AmpModel)
    ensures
        model_named(name) is Some ==> model_name_of(model_named(name)->0) == name,
        model_named(name) == Some(m) <==> model_name_of(m) == name,
{
    law_model_name_round_trip(m);
}

/// A level value that was read as a number and lies inside the level's
/// range is accepted with `OK`, for every level; only an unreadable value
/// or one outside the range is refused, the unreadable one with the
/// level's parse refusal.
pub proof fn law_level_answer(l: Level, readable: bool, in_range: bool)
    ensures
        level_answer_spec(l, true, true) == Ok::<Seq<char>, Seq<char>>("OK"@),
        level_answer_spec(l, readable, in_range) is Ok <==> (readable && in_range),
        !readable ==> level_answer_spec(l, readable, in_range) == Err::<Seq<char>, Seq<char>>(
            level_parse_error(l),
        ),
        readable && !in_range ==> level_answer_spec(l, readable, in_range) == Err::<
            Seq<char>,
            Seq<char>,
        >(level_range_error(l)),
{
}

/// Device names that hold `BlackHole`, `多输出` (multi-output) or
/// `Aggregate` are virtual: never a physical output, never a target.
pub proof fn law_virtual_names(name: Seq<char>, target: OutputTarget)
    ensures
        contains_seq(name, "BlackHole"@) ==> names_loopback(name) && names_virtual(name),
        contains_seq(name, "\u{591a}\u{8f93}\u{51fa}"@) ==> names_virtual(name),
        contains_seq(name, "Aggregate"@) ==> names_virtual(name),
        names_virtual(name) ==> !fits_target_spec(target, name),
        names_loopback(name) ==> names_virtual(name),
{
}

/// A device that is not virtual and whose name holds `Speakers`,
/// `MacBook` or `扬声器` (speaker) is the built-in output: it is what an
/// unplug switches back to and never taken for an external output. Every
/// other device that is not virtual is an external output.
pub proof fn law_speaker_names(name: Seq<char>)
    ensures
        !names_virtual(name) && (contains_seq(name, "Speakers"@) || contains_seq(name, "MacBook"@)
            || contains_seq(name, "\u{626c}\u{58f0}\u{5668}"@)) ==> fits_target_spec(
            OutputTarget::Builtin,
            name,
        ) && !fits_target_spec(OutputTarget::External, name),
        !names_virtual(name) && !contains_seq(name, "Speakers"@) && !contains_seq(name, "MacBook"@)
            && !contains_seq(name, "\u{626c}\u{58f0}\u{5668}"@) ==> fits_target_spec(
            OutputTarget::External,
            name,
        ) && !fits_target_spec(OutputTarget::Builtin, name),
        !names_virtual(name) ==> (fits_target_spec(OutputTarget::Builtin, name) != fits_target_spec(
            OutputTarget::External,
            name,
        )),
{
}

/// A model request that reaches the engine is stored exactly as it came;
/// nothing else changes the stored model.
pub proof fn law_model_request_stored(incoming: Incoming, before: Seq<char>)
    ensures
        incoming matches Incoming::Command(MainCommand::SetModel { model, .. }) ==> model_after(
            incoming,
            before,
        ) == model@,
        !(incoming matches Incoming::Command(MainCommand::SetModel { .. })) ==> model_after(
            incoming,
            before,
        ) == before,
{
}

/// A tube request that reaches the engine is stored exactly as it came
/// when it names a catalogue tube; an unknown name, or any other event,
/// leaves the stored tube as it was.
pub proof fn law_tube_request_stored(incoming: Incoming, t: TubeModel, before: Seq<char>)
    ensures
        incoming matches Incoming::Command(MainCommand::SetTube { tube, .. }) && tube@
            == tube_name_of(t) ==> tube_after(incoming, before) == tube_name_of(t),
        incoming matches Incoming::Command(MainCommand::SetTube { tube, .. }) && tube_named(tube@)
            is None ==> tube_after(incoming, before) == before,
        !(incoming matches Incoming::Command(MainCommand::SetTube { .. })) ==> tube_after(
            incoming,
            before,
        ) == before,
{
    law_tube_name_round_trip(t);
}

/// Only the lines `bypass on` and `bypass off` change the bypass flag:
/// `status`, level, tube, model and unknown lines all leave it.
pub proof fn law_bypass_changes_only_on_bypass_lines(line: Seq<char>, before: bool)
    ensures
        split_once(line, ' ').0 != "bypass"@ ==> bypass_after(line, before) == before,
        bypass_after(line, before) != before ==> (line == "bypass on"@ || line == "bypass off"@),
        line == "bypass on"@ ==> bypass_after(line, before),
        line == "bypass off"@ ==> !bypass_after(line, before),
{
    law_bypass_command_applies(true, before);
    law_bypass_command_applies(false, before);
    reveal_strlit("on");
    reveal_strlit("off");
    reveal_strlit("bypass");
    reveal_strlit("bypass on");
    reveal_strlit("bypass off");
    assert("bypass on"@ =~= "bypass "@ + on_off(true)) by {
        reveal_strlit("bypass ");
    }
    assert("bypass off"@ =~= "bypass "@ + on_off(false)) by {
        reveal_strlit("bypass ");
    }
    if bypass_after(line, before) != before {
        let cmd = split_once(line, ' ').0;
        let val = split_once(line, ' ').1;
        let k = first_index_of(line, ' ');
        lemma_first_index_bounds(line, ' ');
        assert(cmd == "bypass"@);
        assert(val == "on"@ || val == "off"@);
        assert(k < line.len());
        assert(line =~= cmd + seq![' '] + val);
        if val == "on"@ {
            assert(line =~= "bypass on"@);
        } else {
            assert(line =~= "bypass off"@);
        }
    }
}

} // verus!
