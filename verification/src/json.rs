//! A JSON document model.
//!
//! Webhook bodies are normalized into the compact rendering that the JSON
//! library produces (no whitespace, keys sorted, a fixed escape set), and
//! that text is parsed here into [`JsonValue`]. Numbers keep their literal
//! text, so a document survives a round trip unchanged.
use vstd::prelude::*;

verus! {

/// A JSON document. Numbers carry their literal text; strings carry their
/// decoded characters; object members keep their order.
#[derive(Debug, PartialEq, Eq)]
pub enum JsonValue {
    Null,
    Bool(bool),
    Num(Vec<char>),
    Str(Vec<char>),
    Arr(Vec<JsonValue>),
    Obj(Vec<(Vec<char>, JsonValue)>),
}

/// The mathematical shape of a JSON document, used in contracts.
pub enum JsonModel {
    Null,
    Bool(bool),
    Num(Seq<char>),
    Str(Seq<char>),
    Arr(Seq<JsonModel>),
    Obj(Seq<(Seq<char>, JsonModel)>),
}

/// The models of a sequence of values.
pub open spec fn models_of(vs: Seq<JsonValue>) -> Seq<JsonModel> {
    Seq::new(vs.len(), |i: int| jv_model(vs[i]))
}

/// The models of a sequence of object members.
pub open spec fn members_model(ms: Seq<(Vec<char>, JsonValue)>) -> Seq<(Seq<char>, JsonModel)> {
    Seq::new(ms.len(), |i: int| (ms[i].0@, jv_model(ms[i].1)))
}

/// The model of a document.
pub open spec fn jv_model(v: JsonValue) -> JsonModel
    decreases v,
{
    match v {
        JsonValue::Null => JsonModel::Null,
        JsonValue::Bool(b) => JsonModel::Bool(b),
        JsonValue::Num(t) => JsonModel::Num(t@),
        JsonValue::Str(s) => JsonModel::Str(s@),
        JsonValue::Arr(a) => JsonModel::Arr(
            Seq::new(
                a@.len(),
                |i: int|
                    if 0 <= i < a@.len() {
                        jv_model(a@[i])
                    } else {
                        JsonModel::Null
                    },
            ),
        ),
        JsonValue::Obj(ms) => JsonModel::Obj(
            Seq::new(
                ms@.len(),
                |i: int|
                    if 0 <= i < ms@.len() {
                        (ms@[i].0@, jv_model(ms@[i].1))
                    } else {
                        (Seq::empty(), JsonModel::Null)
                    },
            ),
        ),
    }
}

/// The model of an array value is the models of its elements.
pub broadcast proof fn lemma_jv_model_arr(a: Vec<JsonValue>)
    ensures
        #[trigger] jv_model(JsonValue::Arr(a)) == JsonModel::Arr(models_of(a@)),
{
    assert(jv_model(JsonValue::Arr(a))->Arr_0 =~= models_of(a@));
}

/// The model of an object value is the models of its members.
pub broadcast proof fn lemma_jv_model_obj(ms: Vec<(Vec<char>, JsonValue)>)
    ensures
        #[trigger] jv_model(JsonValue::Obj(ms)) == JsonModel::Obj(members_model(ms@)),
{
    assert(jv_model(JsonValue::Obj(ms))->Obj_0 =~= members_model(ms@));
}


/// The compact rendering of one string character: quote, backslash and the
/// short control escapes get a two-character escape, other control
/// characters a `\u00..` escape, everything else stands as itself.
pub open spec fn escape_char(c: char) -> Seq<char> {
    if c == '"' {
        seq!['\\', '"']
    } else if c == '\\' {
        seq!['\\', '\\']
    } else if c == '\u{8}' {
        seq!['\\', 'b']
    } else if c == '\t' {
        seq!['\\', 't']
    } else if c == '\n' {
        seq!['\\', 'n']
    } else if c == '\u{c}' {
        seq!['\\', 'f']
    } else if c == '\r' {
        seq!['\\', 'r']
    } else if (c as u32) < 32 {
        seq![
            '\\',
            'u',
            '0',
            '0',
            crate::hexcode::hex_digit_char(((c as u32) / 16) as u8),
            crate::hexcode::hex_digit_char(((c as u32) % 16) as u8),
        ]
    } else {
        seq![c]
    }
}

/// The rendering of the first `i` characters of a string's content.
pub open spec fn escape_upto(s: Seq<char>, i: int) -> Seq<char>
    decreases i,
{
    if i <= 0 {
        Seq::empty()
    } else {
        escape_upto(s, i - 1) + escape_char(s[i - 1])
    }
}

/// The compact rendering of a document: no whitespace, strings escaped as
/// [`escape_char`] says, numbers by their stored text.
pub open spec fn render(m: JsonModel) -> Seq<char>
    decreases m, 0int,
{
    match m {
        JsonModel::Null => seq!['n', 'u', 'l', 'l'],
        JsonModel::Bool(b) => if b {
            seq!['t', 'r', 'u', 'e']
        } else {
            seq!['f', 'a', 'l', 's', 'e']
        },
        JsonModel::Num(t) => t,
        JsonModel::Str(s) => seq!['"'] + escape_upto(s, s.len() as int) + seq!['"'],
        JsonModel::Arr(a) => seq!['['] + render_elems_upto(a, a.len() as int) + seq![']'],
        JsonModel::Obj(ms) => seq!['{'] + render_members_upto(ms, ms.len() as int) + seq!['}'],
    }
}

/// The rendering of the first `i` elements of an array, commas between them.
pub open spec fn render_elems_upto(elems: Seq<JsonModel>, i: int) -> Seq<char>
    decreases elems, i,
{
    if i <= 0 || i > elems.len() {
        Seq::empty()
    } else {
        let sep: Seq<char> = if i > 1 {
            seq![',']
        } else {
            Seq::empty()
        };
        render_elems_upto(elems, i - 1) + sep + render(elems[i - 1])
    }
}

/// The rendering of the first `i` members of an object, commas between them.
pub open spec fn render_members_upto(ms: Seq<(Seq<char>, JsonModel)>, i: int) -> Seq<char>
    decreases ms, i,
{
    if i <= 0 || i > ms.len() {
        Seq::empty()
    } else {
        let sep: Seq<char> = if i > 1 {
            seq![',']
        } else {
            Seq::empty()
        };
        render_members_upto(ms, i - 1) + sep + seq!['"'] + escape_upto(ms[i - 1].0, ms[i - 1].0.len() as int)
            + seq!['"', ':'] + render(ms[i - 1].1)
    }
}


/// Copy a character vector.
pub fn copy_chars(t: &Vec<char>) -> (r: Vec<char>)
    ensures
        r@ == t@,
{
    let mut r: Vec<char> = Vec::new();
    let mut i: usize = 0;
    while i < t.len()
        invariant
            i <= t@.len(),
            r@ == t@.take(i as int),
        decreases t@.len() - i,
    {
        r.push(t[i]);
        proof {
            assert(t@.take(i + 1) =~= t@.take(i as int).push(t@[i as int]));
        }
        i = i + 1;
    }
    proof {
        assert(t@.take(t@.len() as int) =~= t@);
    }
    r
}

/// Deep copy of a document.
pub fn clone_value(v: &JsonValue) -> (r: JsonValue)
    ensures
        jv_model(r) == jv_model(*v),
    decreases *v,
{
    broadcast use lemma_jv_model_arr, lemma_jv_model_obj;

    match v {
        JsonValue::Null => JsonValue::Null,
        JsonValue::Bool(b) => JsonValue::Bool(*b),
        JsonValue::Num(t) => JsonValue::Num(copy_chars(t)),
        JsonValue::Str(s) => JsonValue::Str(copy_chars(s)),
        JsonValue::Arr(a) => {
            let mut out: Vec<JsonValue> = Vec::new();
            let mut i: usize = 0;
            while i < a.len()
                invariant
                    i <= a@.len(),
                    *v == JsonValue::Arr(*a),
                    models_of(out@) =~= models_of(a@).take(i as int),
                decreases a@.len() - i,
            {
                proof {
                    assert(decreases_to!(*v => v->Arr_0));
                    assert(v->Arr_0 == *a);
                    assert(decreases_to!(*a => a@));
                    assert(decreases_to!(a@ => a@[i as int]));
                }
                let e = clone_value(&a[i]);
                let ghost prev = out@;
                let ghost emodel = jv_model(e);
                out.push(e);
                proof {
                    assert(models_of(prev) =~= models_of(a@).take(i as int));
                    assert(models_of(prev).len() == i as int);
                    assert(prev.len() == i as int);
                    assert(out@ == prev.push(e));
                    assert forall|j: int| 0 <= j < models_of(out@).len() implies models_of(out@)[j]
                        == models_of(a@).take(i + 1)[j] by {
                        if j < i as int {
                            assert(models_of(prev)[j] == models_of(a@).take(i as int)[j]);
                        } else {
                            assert(prev.len() == i as int);
                            assert(j == i as int);
                            assert(out@[j] == e);
                        }
                    }
                    assert(models_of(out@) =~= models_of(a@).take(i + 1));
                }
                i = i + 1;
            }
            proof {
                assert(models_of(a@).take(a@.len() as int) =~= models_of(a@));
            }
            JsonValue::Arr(out)
        },
        JsonValue::Obj(ms) => {
            let mut out: Vec<(Vec<char>, JsonValue)> = Vec::new();
            let mut i: usize = 0;
            while i < ms.len()
                invariant
                    i <= ms@.len(),
                    *v == JsonValue::Obj(*ms),
                    members_model(out@) =~= members_model(ms@).take(i as int),
                decreases ms@.len() - i,
            {
                proof {
                    assert(decreases_to!(*v => v->Obj_0));
                    assert(v->Obj_0 == *ms);
                    assert(decreases_to!(*ms => ms@));
                    assert(decreases_to!(ms@ => ms@[i as int]));
                    assert(decreases_to!(ms@[i as int] => ms@[i as int].1));
                }
                let k = copy_chars(&ms[i].0);
                let e = clone_value(&ms[i].1);
                let ghost prev = out@;
                out.push((k, e));
                proof {
                    assert(members_model(prev) =~= members_model(ms@).take(i as int));
                    assert(members_model(prev).len() == i as int);
                    assert(prev.len() == i as int);
                    assert(out@ == prev.push((k, e)));
                    assert forall|j: int| 0 <= j < members_model(out@).len() implies members_model(
                        out@,
                    )[j] == members_model(ms@).take(i + 1)[j] by {
                        if j < i as int {
                            assert(members_model(prev)[j] == members_model(ms@).take(i as int)[j]);
                        } else {
                            assert(prev.len() == i as int);
                            assert(j == i as int);
                            assert(out@[j] == (k, e));
                        }
                    }
                    assert(members_model(out@) =~= members_model(ms@).take(i + 1));
                }
                i = i + 1;
            }
            proof {
                assert(members_model(ms@).take(ms@.len() as int) =~= members_model(ms@));
            }
            JsonValue::Obj(out)
        },
    }
}

/// Push the rendering of one character onto the output.
fn push_escaped_char(out: &mut Vec<char>, c: char)
    ensures
        final(out)@ == old(out)@ + escape_char(c),
{
    let v = c as u32;
    if c == '"' {
        out.push('\\');
        out.push('"');
    } else if c == '\\' {
        out.push('\\');
        out.push('\\');
    } else if c == '\u{8}' {
        out.push('\\');
        out.push('b');
    } else if c == '\t' {
        out.push('\\');
        out.push('t');
    } else if c == '\n' {
        out.push('\\');
        out.push('n');
    } else if c == '\u{c}' {
        out.push('\\');
        out.push('f');
    } else if c == '\r' {
        out.push('\\');
        out.push('r');
    } else if v < 32 {
        out.push('\\');
        out.push('u');
        out.push('0');
        out.push('0');
        let hi = (v / 16) as u8;
        let lo = (v % 16) as u8;
        out.push(if hi < 10 { (48 + hi) as char } else { (87 + hi) as char });
        out.push(if lo < 10 { (48 + lo) as char } else { (87 + lo) as char });
    } else {
        out.push(c);
    }
    proof {
        assert(out@ =~= old(out)@ + escape_char(c));
    }
}

/// Push the rendering of a string's content onto the output.
fn push_escaped(out: &mut Vec<char>, s: &Vec<char>)
    ensures
        final(out)@ == old(out)@ + escape_upto(s@, s@.len() as int),
{
    let mut i: usize = 0;
    while i < s.len()
        invariant
            i <= s@.len(),
            out@ == old(out)@ + escape_upto(s@, i as int),
        decreases s@.len() - i,
    {
        push_escaped_char(out, s[i]);
        proof {
            assert(old(out)@ + escape_upto(s@, i as int) + escape_char(s@[i as int]) =~= old(out)@
                + escape_upto(s@, i + 1));
        }
        i = i + 1;
    }
}

/// Render a document in the compact form.
pub fn render_chars(v: &JsonValue) -> (r: Vec<char>)
    ensures
        r@ == render(jv_model(*v)),
    decreases *v,
{
    broadcast use lemma_jv_model_arr, lemma_jv_model_obj;

    match v {
        JsonValue::Null => {
            let r: Vec<char> = vec!['n', 'u', 'l', 'l'];
            proof {
                assert(r@ =~= render(jv_model(*v)));
            }
            r
        },
        JsonValue::Bool(b) => {
            let r: Vec<char> = if *b {
                vec!['t', 'r', 'u', 'e']
            } else {
                vec!['f', 'a', 'l', 's', 'e']
            };
            proof {
                assert(r@ =~= render(jv_model(*v)));
            }
            r
        },
        JsonValue::Num(t) => copy_chars(t),
        JsonValue::Str(s) => {
            let mut out: Vec<char> = Vec::new();
            out.push('"');
            proof {
                assert(out@ =~= Seq::empty().push('"'));
                assert(out@ =~= seq!['"']);
            }
            push_escaped(&mut out, s);
            out.push('"');
            proof {
                assert(out@ =~= render(jv_model(*v)));
            }
            out
        },
        JsonValue::Arr(a) => {
            let ghost m = models_of(a@);
            let mut out: Vec<char> = Vec::new();
            out.push('[');
            proof {
                assert(out@ =~= seq!['['] + render_elems_upto(m, 0));
            }
            let mut i: usize = 0;
            while i < a.len()
                invariant
                    i <= a@.len(),
                    *v == JsonValue::Arr(*a),
                    m == models_of(a@),
                    out@ == seq!['['] + render_elems_upto(m, i as int),
                decreases a@.len() - i,
            {
                if i > 0 {
                    out.push(',');
                }
                proof {
                    assert(decreases_to!(*v => v->Arr_0));
                    assert(v->Arr_0 == *a);
                    assert(decreases_to!(*a => a@));
                    assert(decreases_to!(a@ => a@[i as int]));
                }
                let piece = render_chars(&a[i]);
                let mut piece = piece;
                out.append(&mut piece);
                proof {
                    assert(m[i as int] == jv_model(a@[i as int]));
                    assert(out@ =~= seq!['['] + render_elems_upto(m, i + 1));
                }
                i = i + 1;
            }
            out.push(']');
            proof {
                assert(out@ =~= render(jv_model(*v)));
            }
            out
        },
        JsonValue::Obj(ms) => {
            let ghost m = members_model(ms@);
            let mut out: Vec<char> = Vec::new();
            out.push('{');
            proof {
                assert(out@ =~= seq!['{'] + render_members_upto(m, 0));
            }
            let mut i: usize = 0;
            while i < ms.len()
                invariant
                    i <= ms@.len(),
                    *v == JsonValue::Obj(*ms),
                    m == members_model(ms@),
                    out@ == seq!['{'] + render_members_upto(m, i as int),
                decreases ms@.len() - i,
            {
                if i > 0 {
                    out.push(',');
                }
                out.push('"');
                push_escaped(&mut out, &ms[i].0);
                out.push('"');
                out.push(':');
                proof {
                    assert(decreases_to!(*v => v->Obj_0));
                    assert(v->Obj_0 == *ms);
                    assert(decreases_to!(*ms => ms@));
                    assert(decreases_to!(ms@ => ms@[i as int]));
                    assert(decreases_to!(ms@[i as int] => ms@[i as int].1));
                }
                let piece = render_chars(&ms[i].1);
                let mut piece = piece;
                out.append(&mut piece);
                proof {
                    assert(m[i as int] == (ms@[i as int].0@, jv_model(ms@[i as int].1)));
                    assert(out@ =~= seq!['{'] + render_members_upto(m, i + 1));
                }
                i = i + 1;
            }
            out.push('}');
            proof {
                assert(out@ =~= render(jv_model(*v)));
            }
            out
        },
    }
}


/// A decimal digit.
pub open spec fn is_digit(c: char) -> bool {
    '0' <= c && c <= '9'
}

/// The end of the run of digits starting at `i`.
pub open spec fn sp_digits_end(s: Seq<char>, i: int) -> int
    decreases s.len() - i, 0int,
{
    if i < 0 || i >= s.len() || !is_digit(s[i]) {
        i
    } else {
        sp_digits_end(s, i + 1)
    }
}

/// Parse a number literal at `i`: an optional minus, digits, an optional
/// fraction and an optional exponent. Returns its text and end position.
pub open spec fn sp_number(s: Seq<char>, i: int) -> Option<(Seq<char>, int)>
    decreases s.len() - i, 1int,
{
    if i < 0 || i >= s.len() {
        None
    } else {
        let p = if s[i] == '-' {
            i + 1
        } else {
            i
        };
        let d0 = sp_digits_end(s, p);
        let d = if d0 < p {
            p
        } else {
            d0
        };
        if d == p {
            None
        } else {
            let f = if d < s.len() && s[d] == '.' {
                let f0 = sp_digits_end(s, d + 1);
                let ff = if f0 < d + 1 {
                    d + 1
                } else {
                    f0
                };
                if ff == d + 1 {
                    -1
                } else {
                    ff
                }
            } else {
                d
            };
            if f < 0 {
                None
            } else {
                let e = if f < s.len() && (s[f] == 'e' || s[f] == 'E') {
                    let sp = if f + 1 < s.len() && (s[f + 1] == '+' || s[f + 1] == '-') {
                        f + 2
                    } else {
                        f + 1
                    };
                    let e0 = sp_digits_end(s, sp);
                    let ee = if e0 < sp {
                        sp
                    } else {
                        e0
                    };
                    if ee == sp {
                        -1
                    } else {
                        ee
                    }
                } else {
                    f
                };
                if e < 0 {
                    None
                } else {
                    Some((s.subrange(i, e), e))
                }
            }
        }
    }
}

/// The character a two-character escape stands for.
pub open spec fn sp_short_escape(c: char) -> Option<char> {
    if c == '"' {
        Some('"')
    } else if c == '\\' {
        Some('\\')
    } else if c == 'b' {
        Some('\u{8}')
    } else if c == 't' {
        Some('\t')
    } else if c == 'n' {
        Some('\n')
    } else if c == 'f' {
        Some('\u{c}')
    } else if c == 'r' {
        Some('\r')
    } else {
        None
    }
}

/// The character a `\u00..` escape stands for: only the control characters
/// that have no two-character escape are written this way, with lowercase
/// hex digits.
pub open spec fn sp_unicode_escape(c2: char, c3: char, c4: char, c5: char) -> Option<char> {
    let lo: int = if is_digit(c5) {
        (c5 as u32) - 48
    } else if 'a' <= c5 && c5 <= 'f' {
        (c5 as u32) - 87
    } else {
        99
    };
    if c2 == '0' && c3 == '0' && (c4 == '0' || c4 == '1') && lo < 16 {
        let v: int = (if c4 == '1' {
            16int
        } else {
            0int
        }) + lo;
        if v == 8 || v == 9 || v == 10 || v == 12 || v == 13 {
            None
        } else {
            Some(((v as u32) as char))
        }
    } else {
        None
    }
}

/// Parse the content of a string literal after its opening quote: the
/// decoded characters and the position after the closing quote.
pub open spec fn sp_string_body(s: Seq<char>, i: int) -> Option<(Seq<char>, int)>
    decreases s.len() - i, 0int,
{
    if i < 0 || i >= s.len() {
        None
    } else {
        let c = s[i];
        if c == '"' {
            Some((Seq::empty(), i + 1))
        } else if c == '\\' {
            if i + 2 > s.len() {
                None
            } else {
                let e = s[i + 1];
                if e == 'u' {
                    if i + 6 > s.len() {
                        None
                    } else {
                        match sp_unicode_escape(s[i + 2], s[i + 3], s[i + 4], s[i + 5]) {
                            Some(d) => match sp_string_body(s, i + 6) {
                                Some(r) => Some((seq![d] + r.0, r.1)),
                                None => None,
                            },
                            None => None,
                        }
                    }
                } else {
                    match sp_short_escape(e) {
                        Some(d) => match sp_string_body(s, i + 2) {
                            Some(r) => Some((seq![d] + r.0, r.1)),
                            None => None,
                        },
                        None => None,
                    }
                }
            }
        } else if (c as u32) < 32 {
            None
        } else {
            match sp_string_body(s, i + 1) {
                Some(r) => Some((seq![c] + r.0, r.1)),
                None => None,
            }
        }
    }
}

/// Parse a string literal at `i`.
pub open spec fn sp_string(s: Seq<char>, i: int) -> Option<(Seq<char>, int)>
    decreases s.len() - i, 1int,
{
    if 0 <= i && i < s.len() && s[i] == '"' {
        sp_string_body(s, i + 1)
    } else {
        None
    }
}

/// Parse one document at `i`.
pub open spec fn sp_value(s: Seq<char>, i: int) -> Option<(JsonModel, int)>
    decreases s.len() - i, 2int,
{
    if i < 0 || i >= s.len() {
        None
    } else {
        let c = s[i];
        if c == 'n' {
            if i + 4 <= s.len() && s.subrange(i, i + 4) == seq!['n', 'u', 'l', 'l'] {
                Some((JsonModel::Null, i + 4))
            } else {
                None
            }
        } else if c == 't' {
            if i + 4 <= s.len() && s.subrange(i, i + 4) == seq!['t', 'r', 'u', 'e'] {
                Some((JsonModel::Bool(true), i + 4))
            } else {
                None
            }
        } else if c == 'f' {
            if i + 5 <= s.len() && s.subrange(i, i + 5) == seq!['f', 'a', 'l', 's', 'e'] {
                Some((JsonModel::Bool(false), i + 5))
            } else {
                None
            }
        } else if c == '"' {
            match sp_string(s, i) {
                Some(r) => Some((JsonModel::Str(r.0), r.1)),
                None => None,
            }
        } else if c == '-' || is_digit(c) {
            match sp_number(s, i) {
                Some(r) => Some((JsonModel::Num(r.0), r.1)),
                None => None,
            }
        } else if c == '[' {
            if i + 1 < s.len() && s[i + 1] == ']' {
                Some((JsonModel::Arr(Seq::empty()), i + 2))
            } else {
                match sp_elems(s, i + 1) {
                    Some(r) => Some((JsonModel::Arr(r.0), r.1)),
                    None => None,
                }
            }
        } else if c == '{' {
            if i + 1 < s.len() && s[i + 1] == '}' {
                Some((JsonModel::Obj(Seq::empty()), i + 2))
            } else {
                match sp_members(s, i + 1) {
                    Some(r) => Some((JsonModel::Obj(r.0), r.1)),
                    None => None,
                }
            }
        } else {
            None
        }
    }
}

/// Parse the elements of a non-empty array after its opening bracket.
pub open spec fn sp_elems(s: Seq<char>, i: int) -> Option<(Seq<JsonModel>, int)>
    decreases s.len() - i, 3int,
{
    if i < 0 || i > s.len() {
        None
    } else {
        match sp_value(s, i) {
            None => None,
            Some(r) => {
                let j = r.1;
                if j <= i || j >= s.len() {
                    None
                } else if s[j] == ',' {
                    match sp_elems(s, j + 1) {
                        Some(rr) => Some((seq![r.0] + rr.0, rr.1)),
                        None => None,
                    }
                } else if s[j] == ']' {
                    Some((seq![r.0], j + 1))
                } else {
                    None
                }
            },
        }
    }
}

/// Parse the members of a non-empty object after its opening brace.
pub open spec fn sp_members(s: Seq<char>, i: int) -> Option<(Seq<(Seq<char>, JsonModel)>, int)>
    decreases s.len() - i, 3int,
{
    if i < 0 || i > s.len() {
        None
    } else {
        match sp_string(s, i) {
            None => None,
            Some(k) => {
                let jk = k.1;
                if jk <= i || jk >= s.len() {
                    None
                } else if s[jk] == ':' {
                    match sp_value(s, jk + 1) {
                        None => None,
                        Some(r) => {
                            let jv = r.1;
                            if jv <= jk || jv >= s.len() {
                                None
                            } else if s[jv] == ',' {
                                match sp_members(s, jv + 1) {
                                    Some(rr) => Some((seq![(k.0, r.0)] + rr.0, rr.1)),
                                    None => None,
                                }
                            } else if s[jv] == '}' {
                                Some((seq![(k.0, r.0)], jv + 1))
                            } else {
                                None
                            }
                        },
                    }
                } else {
                    None
                }
            },
        }
    }
}

/// The document a whole text parses to, when the text is exactly one
/// document in the compact form.
pub open spec fn sp_json(s: Seq<char>) -> Option<JsonModel> {
    match sp_value(s, 0) {
        Some(r) => if r.1 == s.len() {
            Some(r.0)
        } else {
            None
        },
        None => None,
    }
}


/// The end of the digit run starting at `i`.
fn p_digits_end(s: &[char], i: usize) -> (j: usize)
    requires
        i <= s@.len(),
    ensures
        j == sp_digits_end(s@, i as int),
        i <= j <= s@.len(),
{
    let mut cur = i;
    while cur < s.len() && '0' <= s[cur] && s[cur] <= '9'
        invariant
            i <= cur <= s@.len(),
            sp_digits_end(s@, i as int) == sp_digits_end(s@, cur as int),
        decreases s@.len() - cur,
    {
        cur = cur + 1;
    }
    cur
}

/// Parse a number literal at `i`.
fn p_number(s: &[char], i: usize) -> (r: Option<(Vec<char>, usize)>)
    requires
        i <= s@.len(),
    ensures
        match r {
            Some(t) => sp_number(s@, i as int) == Some((t.0@, t.1 as int)) && i < t.1 <= s@.len(),
            None => sp_number(s@, i as int) is None,
        },
{
    if i >= s.len() {
        return None;
    }
    let p: usize = if s[i] == '-' {
        i + 1
    } else {
        i
    };
    let d = p_digits_end(s, p);
    if d == p {
        return None;
    }
    let mut endpos = d;
    if d < s.len() && s[d] == '.' {
        let f = p_digits_end(s, d + 1);
        if f == d + 1 {
            return None;
        }
        endpos = f;
    }
    if endpos < s.len() && (s[endpos] == 'e' || s[endpos] == 'E') {
        let mut sp = endpos + 1;
        if endpos + 1 < s.len() && (s[endpos + 1] == '+' || s[endpos + 1] == '-') {
            sp = endpos + 2;
        }
        let e = p_digits_end(s, sp);
        if e == sp {
            return None;
        }
        endpos = e;
    }
    let t = vstd::slice::slice_to_vec(vstd::slice::slice_subrange(s, i, endpos));
    Some((t, endpos))
}

/// Parse the content of a string literal after its opening quote.
fn p_string_body(s: &[char], start: usize) -> (r: Option<(Vec<char>, usize)>)
    requires
        start <= s@.len(),
    ensures
        match r {
            Some(t) => sp_string_body(s@, start as int) == Some((t.0@, t.1 as int)) && start < t.1
                <= s@.len(),
            None => sp_string_body(s@, start as int) is None,
        },
{
    let mut acc: Vec<char> = Vec::new();
    let mut cur = start;
    while cur < s.len()
        invariant
            start <= cur <= s@.len(),
            match sp_string_body(s@, cur as int) {
                Some(r) => sp_string_body(s@, start as int) == Some((acc@ + r.0, r.1)),
                None => sp_string_body(s@, start as int) is None,
            },
        decreases s@.len() - cur,
    {
        let c = s[cur];
        if c == '"' {
            proof {
                assert(acc@ + Seq::<char>::empty() =~= acc@);
            }
            return Some((acc, cur + 1));
        } else if c == '\\' {
            if s.len() - cur < 2 {
                return None;
            }
            let e = s[cur + 1];
            if e == 'u' {
                if s.len() - cur < 6 {
                    return None;
                }
                let c4 = s[cur + 4];
                let c5 = s[cur + 5];
                if !(s[cur + 2] == '0' && s[cur + 3] == '0' && (c4 == '0' || c4 == '1')) {
                    return None;
                }
                let lo: u32 = if '0' <= c5 && c5 <= '9' {
                    (c5 as u32) - 48
                } else if 'a' <= c5 && c5 <= 'f' {
                    (c5 as u32) - 87
                } else {
                    99
                };
                if lo >= 16 {
                    return None;
                }
                let v: u32 = (if c4 == '1' {
                    16
                } else {
                    0
                }) + lo;
                if v == 8 || v == 9 || v == 10 || v == 12 || v == 13 {
                    return None;
                }
                let d = (v as u8) as char;
                proof {
                    assert(d as u32 == v);
                    vstd::utf8::char_u32_cast(d, v);
                }
                let ghost old_acc = acc@;
                acc.push(d);
                proof {
                    assert(sp_unicode_escape(s@[cur + 2], s@[cur + 3], s@[cur + 4], s@[cur + 5])
                        == Some(d));
                    if let Some(r) = sp_string_body(s@, cur + 6) {
                        assert(acc@ + r.0 =~= old_acc + (seq![d] + r.0));
                    }
                }
                cur = cur + 6;
            } else {
                let d: char = if e == '"' {
                    '"'
                } else if e == '\\' {
                    '\\'
                } else if e == 'b' {
                    '\u{8}'
                } else if e == 't' {
                    '\t'
                } else if e == 'n' {
                    '\n'
                } else if e == 'f' {
                    '\u{c}'
                } else if e == 'r' {
                    '\r'
                } else {
                    return None;
                };
                let ghost old_acc = acc@;
                acc.push(d);
                proof {
                    if let Some(r) = sp_string_body(s@, cur + 2) {
                        assert(acc@ + r.0 =~= old_acc + (seq![d] + r.0));
                    }
                }
                cur = cur + 2;
            }
        } else if (c as u32) < 32 {
            return None;
        } else {
            let ghost old_acc = acc@;
            acc.push(c);
            proof {
                if let Some(r) = sp_string_body(s@, cur + 1) {
                    assert(acc@ + r.0 =~= old_acc + (seq![c] + r.0));
                }
            }
            cur = cur + 1;
        }
    }
    None
}

/// Parse a string literal at `i`.
fn p_string(s: &[char], i: usize) -> (r: Option<(Vec<char>, usize)>)
    requires
        i <= s@.len(),
    ensures
        match r {
            Some(t) => sp_string(s@, i as int) == Some((t.0@, t.1 as int)) && i < t.1 <= s@.len(),
            None => sp_string(s@, i as int) is None,
        },
{
    if i >= s.len() || s[i] != '"' {
        return None;
    }
    p_string_body(s, i + 1)
}

/// Parse one document at `i`.
fn p_value(s: &[char], i: usize) -> (r: Option<(JsonValue, usize)>)
    requires
        i <= s@.len(),
    ensures
        match r {
            Some(t) => sp_value(s@, i as int) == Some((jv_model(t.0), t.1 as int)) && i < t.1
                <= s@.len(),
            None => sp_value(s@, i as int) is None,
        },
    decreases s@.len() - i, 2int,
{
    broadcast use lemma_jv_model_arr, lemma_jv_model_obj;

    if i >= s.len() {
        return None;
    }
    let c = s[i];
    if c == 'n' {
        if s.len() - i >= 4 && s[i + 1] == 'u' && s[i + 2] == 'l' && s[i + 3] == 'l' {
            proof {
                assert(s@.subrange(i as int, i + 4) =~= seq!['n', 'u', 'l', 'l']);
            }
            Some((JsonValue::Null, i + 4))
        } else {
            proof {
                if i + 4 <= s@.len() {
                    assert(s@.subrange(i as int, i + 4)[1] == s@[i + 1]);
                    assert(s@.subrange(i as int, i + 4)[2] == s@[i + 2]);
                    assert(s@.subrange(i as int, i + 4)[3] == s@[i + 3]);
                }
            }
            None
        }
    } else if c == 't' {
        if s.len() - i >= 4 && s[i + 1] == 'r' && s[i + 2] == 'u' && s[i + 3] == 'e' {
            proof {
                assert(s@.subrange(i as int, i + 4) =~= seq!['t', 'r', 'u', 'e']);
            }
            Some((JsonValue::Bool(true), i + 4))
        } else {
            proof {
                if i + 4 <= s@.len() {
                    assert(s@.subrange(i as int, i + 4)[1] == s@[i + 1]);
                    assert(s@.subrange(i as int, i + 4)[2] == s@[i + 2]);
                    assert(s@.subrange(i as int, i + 4)[3] == s@[i + 3]);
                }
            }
            None
        }
    } else if c == 'f' {
        if s.len() - i >= 5 && s[i + 1] == 'a' && s[i + 2] == 'l' && s[i + 3] == 's' && s[i + 4]
            == 'e' {
            proof {
                assert(s@.subrange(i as int, i + 5) =~= seq!['f', 'a', 'l', 's', 'e']);
            }
            Some((JsonValue::Bool(false), i + 5))
        } else {
            proof {
                if i + 5 <= s@.len() {
                    assert(s@.subrange(i as int, i + 5)[1] == s@[i + 1]);
                    assert(s@.subrange(i as int, i + 5)[2] == s@[i + 2]);
                    assert(s@.subrange(i as int, i + 5)[3] == s@[i + 3]);
                    assert(s@.subrange(i as int, i + 5)[4] == s@[i + 4]);
                }
            }
            None
        }
    } else if c == '"' {
        match p_string(s, i) {
            Some(t) => Some((JsonValue::Str(t.0), t.1)),
            None => None,
        }
    } else if c == '-' || ('0' <= c && c <= '9') {
        match p_number(s, i) {
            Some(t) => Some((JsonValue::Num(t.0), t.1)),
            None => None,
        }
    } else if c == '[' {
        if i + 1 < s.len() && s[i + 1] == ']' {
            let empty: Vec<JsonValue> = Vec::new();
            proof {
                assert(models_of(empty@) =~= Seq::<JsonModel>::empty());
            }
            Some((JsonValue::Arr(empty), i + 2))
        } else {
            match p_elems(s, i + 1) {
                Some(t) => Some((JsonValue::Arr(t.0), t.1)),
                None => None,
            }
        }
    } else if c == '{' {
        if i + 1 < s.len() && s[i + 1] == '}' {
            let empty: Vec<(Vec<char>, JsonValue)> = Vec::new();
            proof {
                assert(members_model(empty@) =~= Seq::<(Seq<char>, JsonModel)>::empty());
            }
            Some((JsonValue::Obj(empty), i + 2))
        } else {
            match p_members(s, i + 1) {
                Some(t) => Some((JsonValue::Obj(t.0), t.1)),
                None => None,
            }
        }
    } else {
        None
    }
}

/// Parse the elements of a non-empty array after its opening bracket.
fn p_elems(s: &[char], start: usize) -> (r: Option<(Vec<JsonValue>, usize)>)
    requires
        start <= s@.len(),
    ensures
        match r {
            Some(t) => sp_elems(s@, start as int) == Some((models_of(t.0@), t.1 as int)) && start
                < t.1 <= s@.len(),
            None => sp_elems(s@, start as int) is None,
        },
    decreases s@.len() - start, 3int,
{
    let mut acc: Vec<JsonValue> = Vec::new();
    let mut cur = start;
    loop
        invariant
            start <= cur <= s@.len(),
            match sp_elems(s@, cur as int) {
                Some(r) => sp_elems(s@, start as int) == Some((models_of(acc@) + r.0, r.1)),
                None => sp_elems(s@, start as int) is None,
            },
        decreases s@.len() - cur,
    {
        let step = p_value(s, cur);
        match step {
            None => {
                return None;
            },
            Some((v, j)) => {
                if j >= s.len() {
                    return None;
                }
                let sep = s[j];
                let ghost prev = acc@;
                let ghost vm = jv_model(v);
                acc.push(v);
                proof {
                    assert(models_of(acc@) =~= models_of(prev).push(vm));
                }
                if sep == ',' {
                    proof {
                        if let Some(rr) = sp_elems(s@, j + 1) {
                            assert(models_of(prev) + (seq![vm] + rr.0) =~= models_of(acc@) + rr.0);
                        }
                    }
                    cur = j + 1;
                } else if sep == ']' {
                    proof {
                        assert(models_of(prev) + seq![vm] =~= models_of(acc@));
                    }
                    return Some((acc, j + 1));
                } else {
                    return None;
                }
            },
        }
    }
}

/// Parse the members of a non-empty object after its opening brace.
fn p_members(s: &[char], start: usize) -> (r: Option<(Vec<(Vec<char>, JsonValue)>, usize)>)
    requires
        start <= s@.len(),
    ensures
        match r {
            Some(t) => sp_members(s@, start as int) == Some((members_model(t.0@), t.1 as int))
                && start < t.1 <= s@.len(),
            None => sp_members(s@, start as int) is None,
        },
    decreases s@.len() - start, 3int,
{
    let mut acc: Vec<(Vec<char>, JsonValue)> = Vec::new();
    let mut cur = start;
    loop
        invariant
            start <= cur <= s@.len(),
            match sp_members(s@, cur as int) {
                Some(r) => sp_members(s@, start as int) == Some((members_model(acc@) + r.0, r.1)),
                None => sp_members(s@, start as int) is None,
            },
        decreases s@.len() - cur,
    {
        let key = p_string(s, cur);
        match key {
            None => {
                return None;
            },
            Some((k, jk)) => {
                if jk >= s.len() {
                    return None;
                }
                if s[jk] != ':' {
                    return None;
                }
                let step = p_value(s, jk + 1);
                match step {
                    None => {
                        return None;
                    },
                    Some((v, jv)) => {
                        if jv >= s.len() {
                            return None;
                        }
                        let sep = s[jv];
                        let ghost prev = acc@;
                        let ghost km = k@;
                        let ghost vm = jv_model(v);
                        acc.push((k, v));
                        proof {
                            assert(members_model(acc@) =~= members_model(prev).push((km, vm)));
                        }
                        if sep == ',' {
                            proof {
                                if let Some(rr) = sp_members(s@, jv + 1) {
                                    assert(members_model(prev) + (seq![(km, vm)] + rr.0)
                                        =~= members_model(acc@) + rr.0);
                                }
                            }
                            cur = jv + 1;
                        } else if sep == '}' {
                            proof {
                                assert(members_model(prev) + seq![(km, vm)]
                                    =~= members_model(acc@));
                            }
                            return Some((acc, jv + 1));
                        } else {
                            return None;
                        }
                    },
                }
            },
        }
    }
}

/// Parse a whole text as one document in the compact form.
pub fn parse_json(s: &[char]) -> (r: Option<JsonValue>)
    ensures
        match r {
            Some(v) => sp_json(s@) == Some(jv_model(v)),
            None => sp_json(s@) is None,
        },
{
    match p_value(s, 0) {
        Some((v, j)) => if j == s.len() {
            Some(v)
        } else {
            None
        },
        None => None,
    }
}

impl View for JsonValue {
    type V = JsonModel;

    open spec fn view(&self) -> JsonModel {
        jv_model(*self)
    }
}

} // verus!
