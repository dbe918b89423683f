//! The typed webhook event model.
//!
//! An event arrives as an event-name header and a JSON payload. The name
//! picks the variant; the payload is checked against that variant's schema,
//! and a failure names the path to the first bad field. The variants whose
//! data the server consumes carry full field sets; every other variant keeps
//! its payload as an opaque document, so each decoded event re-serializes to
//! the fields it was decoded from.
use vstd::prelude::*;
use crate::json::{
    JsonValue, JsonModel, jv_model, models_of, members_model, clone_value, lemma_jv_model_arr,
    lemma_jv_model_obj,
};
use crate::numtext::{int_text_value, i64_text, parse_i64_chars, i64_to_chars, lemma_int_text_round_trip};
use crate::textutil::{chars_eq_str, chars_to_string, str_to_chars};

verus! {

/// What went wrong while decoding a payload.
#[derive(Clone, Copy, Debug, PartialEq, Eq, Structural)]
pub enum DecodeErrorKind {
    /// The event name matches no known event.
    UnknownEventName,
    /// A required field is absent.
    MissingField,
    /// A field holds a value of the wrong shape.
    WrongType,
    /// A number field is not an integer or does not fit.
    InvalidInteger,
    /// A string field names no known alternative.
    UnknownVariant,
    /// The body is not a well-formed document.
    MalformedBody,
    /// The content type is not one of the accepted two.
    UnsupportedContentType,
}

/// A decode failure: the path to the first failing field, outermost segment
/// first, and what was wrong there.
#[derive(Debug, PartialEq, Eq)]
pub struct DecodeError {
    pub path: Vec<String>,
    pub kind: DecodeErrorKind,
}

/// The mathematical shape of a decode failure.
pub struct DecodeErrorModel {
    pub path: Seq<Seq<char>>,
    pub kind: DecodeErrorKind,
}

/// The model of a decode failure.
pub open spec fn err_model(e: DecodeError) -> DecodeErrorModel {
    DecodeErrorModel { path: e.path.deep_view(), kind: e.kind }
}

impl DecodeError {
    /// The path as one dotted string.
    pub fn path_text(&self) -> (r: String)
        ensures
            r@ == spec_path_text(err_model(*self).path),
    {
        let mut r = String::new();
        let mut i: usize = 0;
        proof {
            assert(self.path.deep_view().len() == self.path@.len());
        }
        while i < self.path.len()
            invariant
                i <= self.path@.len(),
                self.path.deep_view().len() == self.path@.len(),
                forall|j: int| 0 <= j < self.path@.len() ==> self.path.deep_view()[j]
                    == self.path@[j]@,
                r@ == spec_path_text_upto(err_model(*self).path, i as int),
            decreases self.path@.len() - i,
        {
            if i > 0 {
                r.append(".");
                proof {
                    reveal_strlit(".");
                }
            }
            r.append(self.path[i].as_str());
            i = i + 1;
        }
        r
    }
}

/// The dotted rendering of a whole path.
pub open spec fn spec_path_text(path: Seq<Seq<char>>) -> Seq<char> {
    spec_path_text_upto(path, path.len() as int)
}

/// The dotted rendering of the first `i` path segments.
pub open spec fn spec_path_text_upto(path: Seq<Seq<char>>, i: int) -> Seq<char>
    decreases i,
{
    if i <= 0 {
        Seq::empty()
    } else if i == 1 {
        path[0]
    } else {
        spec_path_text_upto(path, i - 1) + seq!['.'] + path[i - 1]
    }
}

/// A failure at the root, with an empty path.
fn err_root(kind: DecodeErrorKind) -> (r: DecodeError)
    ensures
        err_model(r) == (DecodeErrorModel { path: Seq::<Seq<char>>::empty(), kind }),
{
    let r = DecodeError { path: Vec::new(), kind };
    proof {
        assert(r.path.deep_view() =~= Seq::<Seq<char>>::empty());
    }
    r
}

/// A failure at one named field.
fn err_at(seg: &str, kind: DecodeErrorKind) -> (r: DecodeError)
    ensures
        err_model(r) == (DecodeErrorModel { path: seq![seg@], kind }),
{
    let mut path: Vec<String> = Vec::new();
    path.push(String::from_str(seg));
    let r = DecodeError { path, kind };
    proof {
        assert(r.path.deep_view() =~= seq![seg@]);
    }
    r
}

/// Prepend one segment to a failure's path.
fn with_segment(e: DecodeError, seg: &str) -> (r: DecodeError)
    ensures
        err_model(r) == (DecodeErrorModel {
            path: seq![seg@] + err_model(e).path,
            kind: err_model(e).kind,
        }),
{
    let mut path = e.path;
    let ghost old_path = path.deep_view();
    path.insert(0, String::from_str(seg));
    let r = DecodeError { path, kind: e.kind };
    proof {
        assert(r.path.deep_view() =~= seq![seg@] + old_path);
    }
    r
}

/// The first member with the given key.
pub open spec fn field_of(ms: Seq<(Seq<char>, JsonModel)>, name: Seq<char>) -> Option<JsonModel>
    decreases ms.len(),
{
    if ms.len() == 0 {
        None
    } else if ms[0].0 == name {
        Some(ms[0].1)
    } else {
        field_of(ms.drop_first(), name)
    }
}

/// The model of an optional field value.
pub open spec fn fmodel(f: Option<&JsonValue>) -> Option<JsonModel> {
    match f {
        Option::Some(v) => Some(jv_model(*v)),
        Option::None => None,
    }
}

/// Look a field up in an object's members.
fn get_field<'a>(ms: &'a Vec<(Vec<char>, JsonValue)>, name: &str) -> (r: Option<&'a JsonValue>)
    ensures
        fmodel(r) == field_of(members_model(ms@), name@),
{
    let mut i: usize = 0;
    proof {
        assert(members_model(ms@).skip(0) =~= members_model(ms@));
    }
    while i < ms.len()
        invariant
            i <= ms@.len(),
            field_of(members_model(ms@), name@) == field_of(
                members_model(ms@).skip(i as int),
                name@,
            ),
        decreases ms@.len() - i,
    {
        proof {
            assert(members_model(ms@).skip(i as int)[0] == (ms@[i as int].0@, jv_model(
                ms@[i as int].1,
            )));
            assert(members_model(ms@).skip(i as int).drop_first() =~= members_model(ms@).skip(
                i + 1,
            ));
        }
        if chars_eq_str(ms[i].0.as_slice(), name) {
            return Some(&ms[i].1);
        }
        i = i + 1;
    }
    proof {
        assert(members_model(ms@).skip(ms@.len() as int) =~= Seq::<(Seq<char>, JsonModel)>::empty());
    }
    None
}


/// When the key first occurs at position `i`, the lookup finds that member.
proof fn lemma_field_of_at(ms: Seq<(Seq<char>, JsonModel)>, name: Seq<char>, i: int)
    requires
        0 <= i < ms.len(),
        ms[i].0 == name,
        forall|j: int| 0 <= j < i ==> ms[j].0 != name,
    ensures
        field_of(ms, name) == Some(ms[i].1),
    decreases i,
{
    if i > 0 {
        assert(forall|j: int| 0 <= j < i - 1 ==> ms.drop_first()[j] == ms[j + 1]);
        lemma_field_of_at(ms.drop_first(), name, i - 1);
    }
}

/// Decode a required string field.
pub open spec fn sd_string(f: Option<JsonModel>) -> Result<Seq<char>, DecodeErrorKind> {
    match f {
        Option::None => Err(DecodeErrorKind::MissingField),
        Option::Some(JsonModel::Str(s)) => Ok(s),
        Option::Some(_) => Err(DecodeErrorKind::WrongType),
    }
}

/// Decode an optional string field: absent or null is `None`.
pub open spec fn sd_opt_string(f: Option<JsonModel>) -> Result<Option<Seq<char>>, DecodeErrorKind> {
    match f {
        Option::None => Ok(None),
        Option::Some(JsonModel::Null) => Ok(None),
        Option::Some(JsonModel::Str(s)) => Ok(Some(s)),
        Option::Some(_) => Err(DecodeErrorKind::WrongType),
    }
}

/// Decode a required boolean field.
pub open spec fn sd_bool(f: Option<JsonModel>) -> Result<bool, DecodeErrorKind> {
    match f {
        Option::None => Err(DecodeErrorKind::MissingField),
        Option::Some(JsonModel::Bool(b)) => Ok(b),
        Option::Some(_) => Err(DecodeErrorKind::WrongType),
    }
}

/// Decode a required integer field: the number text must be an integer that
/// fits in 64 signed bits.
pub open spec fn sd_i64(f: Option<JsonModel>) -> Result<i64, DecodeErrorKind> {
    match f {
        Option::None => Err(DecodeErrorKind::MissingField),
        Option::Some(JsonModel::Num(t)) => match int_text_value(t) {
            Option::Some(v) => if i64::MIN <= v <= i64::MAX {
                Ok(v as i64)
            } else {
                Err(DecodeErrorKind::InvalidInteger)
            },
            Option::None => Err(DecodeErrorKind::InvalidInteger),
        },
        Option::Some(_) => Err(DecodeErrorKind::WrongType),
    }
}

/// Decode an optional integer field.
pub open spec fn sd_opt_i64(f: Option<JsonModel>) -> Result<Option<i64>, DecodeErrorKind> {
    match f {
        Option::None => Ok(None),
        Option::Some(JsonModel::Null) => Ok(None),
        Option::Some(JsonModel::Num(t)) => match int_text_value(t) {
            Option::Some(v) => if i64::MIN <= v <= i64::MAX {
                Ok(Some(v as i64))
            } else {
                Err(DecodeErrorKind::InvalidInteger)
            },
            Option::None => Err(DecodeErrorKind::InvalidInteger),
        },
        Option::Some(_) => Err(DecodeErrorKind::WrongType),
    }
}

/// Decode a required field that keeps its document as it stands.
pub open spec fn sd_json(f: Option<JsonModel>) -> Result<JsonModel, DecodeErrorKind> {
    match f {
        Option::None => Err(DecodeErrorKind::MissingField),
        Option::Some(m) => Ok(m),
    }
}

/// Decode an optional opaque field: absent or null is `None`.
pub open spec fn sd_opt_json(f: Option<JsonModel>) -> Result<Option<JsonModel>, DecodeErrorKind> {
    match f {
        Option::None => Ok(None),
        Option::Some(JsonModel::Null) => Ok(None),
        Option::Some(m) => Ok(Some(m)),
    }
}

/// Decode a required array-of-strings field.
pub open spec fn sd_vec_string(f: Option<JsonModel>) -> Result<Seq<Seq<char>>, DecodeErrorKind> {
    match f {
        Option::None => Err(DecodeErrorKind::MissingField),
        Option::Some(JsonModel::Arr(es)) => if forall|j: int|
            0 <= j < es.len() ==> es[j] is Str {
            Ok(Seq::new(es.len(), |j: int| es[j]->Str_0))
        } else {
            Err(DecodeErrorKind::WrongType)
        },
        Option::Some(_) => Err(DecodeErrorKind::WrongType),
    }
}

/// Decode an optional array-of-strings field.
pub open spec fn sd_opt_vec_string(f: Option<JsonModel>) -> Result<
    Option<Seq<Seq<char>>>,
    DecodeErrorKind,
> {
    match f {
        Option::None => Ok(None),
        Option::Some(JsonModel::Null) => Ok(None),
        other => match sd_vec_string(other) {
            Ok(ss) => Ok(Some(ss)),
            Err(k) => Err(k),
        },
    }
}

/// The model of an optional opaque value.
pub open spec fn opt_json_model(o: Option<JsonValue>) -> Option<JsonModel> {
    match o {
        Option::Some(v) => Some(jv_model(v)),
        Option::None => None,
    }
}

/// Decode a required string field into an owned string.
fn dec_string(f: Option<&JsonValue>) -> (r: Result<String, DecodeErrorKind>)
    ensures
        match r {
            Ok(s) => sd_string(fmodel(f)) == Ok::<Seq<char>, DecodeErrorKind>(s@),
            Err(k) => sd_string(fmodel(f)) == Err::<Seq<char>, DecodeErrorKind>(k),
        },
{
    match f {
        Option::None => Err(DecodeErrorKind::MissingField),
        Option::Some(JsonValue::Str(s)) => Ok(chars_to_string(s)),
        Option::Some(_) => Err(DecodeErrorKind::WrongType),
    }
}

/// Decode an optional string field.
fn dec_opt_string(f: Option<&JsonValue>) -> (r: Result<Option<String>, DecodeErrorKind>)
    ensures
        match r {
            Ok(o) => sd_opt_string(fmodel(f)) == Ok::<Option<Seq<char>>, DecodeErrorKind>(
                o.deep_view(),
            ),
            Err(k) => sd_opt_string(fmodel(f)) == Err::<Option<Seq<char>>, DecodeErrorKind>(k),
        },
{
    match f {
        Option::None => Ok(None),
        Option::Some(JsonValue::Null) => Ok(None),
        Option::Some(JsonValue::Str(s)) => Ok(Some(chars_to_string(s))),
        Option::Some(_) => Err(DecodeErrorKind::WrongType),
    }
}

/// Decode a required boolean field.
fn dec_bool(f: Option<&JsonValue>) -> (r: Result<bool, DecodeErrorKind>)
    ensures
        match r {
            Ok(b) => sd_bool(fmodel(f)) == Ok::<bool, DecodeErrorKind>(b),
            Err(k) => sd_bool(fmodel(f)) == Err::<bool, DecodeErrorKind>(k),
        },
{
    match f {
        Option::None => Err(DecodeErrorKind::MissingField),
        Option::Some(JsonValue::Bool(b)) => Ok(*b),
        Option::Some(_) => Err(DecodeErrorKind::WrongType),
    }
}

/// Decode a required integer field.
fn dec_i64(f: Option<&JsonValue>) -> (r: Result<i64, DecodeErrorKind>)
    ensures
        match r {
            Ok(x) => sd_i64(fmodel(f)) == Ok::<i64, DecodeErrorKind>(x),
            Err(k) => sd_i64(fmodel(f)) == Err::<i64, DecodeErrorKind>(k),
        },
{
    match f {
        Option::None => Err(DecodeErrorKind::MissingField),
        Option::Some(JsonValue::Num(t)) => match parse_i64_chars(t.as_slice()) {
            Option::Some(x) => Ok(x),
            Option::None => Err(DecodeErrorKind::InvalidInteger),
        },
        Option::Some(_) => Err(DecodeErrorKind::WrongType),
    }
}

/// Decode an optional integer field.
fn dec_opt_i64(f: Option<&JsonValue>) -> (r: Result<Option<i64>, DecodeErrorKind>)
    ensures
        match r {
            Ok(o) => sd_opt_i64(fmodel(f)) == Ok::<Option<i64>, DecodeErrorKind>(o),
            Err(k) => sd_opt_i64(fmodel(f)) == Err::<Option<i64>, DecodeErrorKind>(k),
        },
{
    match f {
        Option::None => Ok(None),
        Option::Some(JsonValue::Null) => Ok(None),
        Option::Some(JsonValue::Num(t)) => match parse_i64_chars(t.as_slice()) {
            Option::Some(x) => Ok(Some(x)),
            Option::None => Err(DecodeErrorKind::InvalidInteger),
        },
        Option::Some(_) => Err(DecodeErrorKind::WrongType),
    }
}

/// Decode a required opaque field.
fn dec_json(f: Option<&JsonValue>) -> (r: Result<JsonValue, DecodeErrorKind>)
    ensures
        match r {
            Ok(v) => sd_json(fmodel(f)) == Ok::<JsonModel, DecodeErrorKind>(jv_model(v)),
            Err(k) => sd_json(fmodel(f)) == Err::<JsonModel, DecodeErrorKind>(k),
        },
{
    match f {
        Option::None => Err(DecodeErrorKind::MissingField),
        Option::Some(v) => Ok(clone_value(v)),
    }
}

/// Decode an optional opaque field.
fn dec_opt_json(f: Option<&JsonValue>) -> (r: Result<Option<JsonValue>, DecodeErrorKind>)
    ensures
        match r {
            Ok(o) => sd_opt_json(fmodel(f)) == Ok::<Option<JsonModel>, DecodeErrorKind>(
                opt_json_model(o),
            ),
            Err(k) => sd_opt_json(fmodel(f)) == Err::<Option<JsonModel>, DecodeErrorKind>(k),
        },
{
    match f {
        Option::None => Ok(None),
        Option::Some(JsonValue::Null) => Ok(None),
        Option::Some(v) => Ok(Some(clone_value(v))),
    }
}

/// Decode a required array-of-strings field.
fn dec_vec_string(f: Option<&JsonValue>) -> (r: Result<Vec<String>, DecodeErrorKind>)
    ensures
        match r {
            Ok(v) => sd_vec_string(fmodel(f)) == Ok::<Seq<Seq<char>>, DecodeErrorKind>(
                v.deep_view(),
            ),
            Err(k) => sd_vec_string(fmodel(f)) == Err::<Seq<Seq<char>>, DecodeErrorKind>(k),
        },
{
    broadcast use lemma_jv_model_arr;

    match f {
        Option::None => Err(DecodeErrorKind::MissingField),
        Option::Some(JsonValue::Arr(es)) => {
            proof {
                assert(fmodel(f) == Some(JsonModel::Arr(models_of(es@))));
            }
            let mut out: Vec<String> = Vec::new();
            let mut i: usize = 0;
            while i < es.len()
                invariant
                    i <= es@.len(),
                    out@.len() == i,
                    fmodel(f) == Some(JsonModel::Arr(models_of(es@))),
                    forall|j: int| 0 <= j < i ==> models_of(es@)[j] is Str,
                    forall|j: int| 0 <= j < i ==> out.deep_view()[j] == models_of(es@)[j]->Str_0,
                decreases es@.len() - i,
            {
                match &es[i] {
                    JsonValue::Str(s) => {
                        let ghost prev = out.deep_view();
                        out.push(chars_to_string(s));
                        proof {
                            assert(out.deep_view() =~= prev.push(s@));
                            assert(models_of(es@)[i as int] == jv_model(es@[i as int]));
                        }
                    },
                    _ => {
                        proof {
                            assert(models_of(es@)[i as int] == jv_model(es@[i as int]));
                        }
                        return Err(DecodeErrorKind::WrongType);
                    },
                }
                i = i + 1;
            }
            proof {
                assert(out.deep_view() =~= Seq::new(
                    models_of(es@).len(),
                    |j: int| models_of(es@)[j]->Str_0,
                ));
            }
            Ok(out)
        },
        Option::Some(_) => Err(DecodeErrorKind::WrongType),
    }
}

/// Decode an optional array-of-strings field.
fn dec_opt_vec_string(f: Option<&JsonValue>) -> (r: Result<Option<Vec<String>>, DecodeErrorKind>)
    ensures
        match r {
            Ok(o) => sd_opt_vec_string(fmodel(f)) == Ok::<Option<Seq<Seq<char>>>, DecodeErrorKind>(
                o.deep_view(),
            ),
            Err(k) => sd_opt_vec_string(fmodel(f)) == Err::<
                Option<Seq<Seq<char>>>,
                DecodeErrorKind,
            >(k),
        },
{
    match f {
        Option::None => Ok(None),
        Option::Some(JsonValue::Null) => Ok(None),
        other => match dec_vec_string(other) {
            Ok(v) => Ok(Some(v)),
            Err(k) => Err(k),
        },
    }
}

/// The rendering of a required string field.
pub open spec fn se_string(s: Seq<char>) -> JsonModel {
    JsonModel::Str(s)
}

/// The rendering of an optional string field: `None` is written as null.
pub open spec fn se_opt_string(o: Option<Seq<char>>) -> JsonModel {
    match o {
        Option::Some(s) => JsonModel::Str(s),
        Option::None => JsonModel::Null,
    }
}

/// The rendering of a boolean field.
pub open spec fn se_bool(b: bool) -> JsonModel {
    JsonModel::Bool(b)
}

/// The rendering of an integer field.
pub open spec fn se_i64(v: i64) -> JsonModel {
    JsonModel::Num(i64_text(v as int))
}

/// The rendering of an optional integer field.
pub open spec fn se_opt_i64(o: Option<i64>) -> JsonModel {
    match o {
        Option::Some(v) => se_i64(v),
        Option::None => JsonModel::Null,
    }
}

/// The rendering of an opaque field.
pub open spec fn se_json(m: JsonModel) -> JsonModel {
    m
}

/// The rendering of an optional opaque field.
pub open spec fn se_opt_json(o: Option<JsonModel>) -> JsonModel {
    match o {
        Option::Some(m) => m,
        Option::None => JsonModel::Null,
    }
}

/// The rendering of an array-of-strings field.
pub open spec fn se_vec_string(ss: Seq<Seq<char>>) -> JsonModel {
    JsonModel::Arr(Seq::new(ss.len(), |j: int| JsonModel::Str(ss[j])))
}

/// The rendering of an optional array-of-strings field.
pub open spec fn se_opt_vec_string(o: Option<Seq<Seq<char>>>) -> JsonModel {
    match o {
        Option::Some(ss) => se_vec_string(ss),
        Option::None => JsonModel::Null,
    }
}

/// Render a required string field.
fn enc_string(s: &String) -> (r: JsonValue)
    ensures
        jv_model(r) == se_string(s@),
{
    JsonValue::Str(str_to_chars(s.as_str()))
}

/// Render an optional string field.
fn enc_opt_string(o: &Option<String>) -> (r: JsonValue)
    ensures
        jv_model(r) == se_opt_string(o.deep_view()),
{
    match o {
        Option::Some(s) => JsonValue::Str(str_to_chars(s.as_str())),
        Option::None => JsonValue::Null,
    }
}

/// Render an integer field.
fn enc_i64(v: i64) -> (r: JsonValue)
    ensures
        jv_model(r) == se_i64(v),
{
    JsonValue::Num(i64_to_chars(v))
}

/// Render an optional integer field.
fn enc_opt_i64(o: &Option<i64>) -> (r: JsonValue)
    ensures
        jv_model(r) == se_opt_i64(*o),
{
    match o {
        Option::Some(v) => JsonValue::Num(i64_to_chars(*v)),
        Option::None => JsonValue::Null,
    }
}

/// Render an optional opaque field.
fn enc_opt_json(o: &Option<JsonValue>) -> (r: JsonValue)
    ensures
        jv_model(r) == se_opt_json(opt_json_model(*o)),
{
    match o {
        Option::Some(v) => clone_value(v),
        Option::None => JsonValue::Null,
    }
}

/// Render an array-of-strings field.
fn enc_vec_string(v: &Vec<String>) -> (r: JsonValue)
    ensures
        jv_model(r) == se_vec_string(v.deep_view()),
{
    broadcast use lemma_jv_model_arr;

    let mut out: Vec<JsonValue> = Vec::new();
    let mut i: usize = 0;
    while i < v.len()
        invariant
            i <= v@.len(),
            models_of(out@) =~= Seq::new(i as nat, |j: int| JsonModel::Str(v.deep_view()[j])),
        decreases v@.len() - i,
    {
        let ghost prev = models_of(out@);
        out.push(JsonValue::Str(str_to_chars(v[i].as_str())));
        proof {
            assert(models_of(out@) =~= prev.push(JsonModel::Str(v@[i as int]@)));
            assert(v.deep_view()[i as int] == v@[i as int]@);
            assert(models_of(out@) =~= Seq::new(
                (i + 1) as nat,
                |j: int| JsonModel::Str(v.deep_view()[j]),
            ));
        }
        i = i + 1;
    }
    proof {
        assert(models_of(out@) =~= Seq::new(
            v.deep_view().len(),
            |j: int| JsonModel::Str(v.deep_view()[j]),
        ));
    }
    JsonValue::Arr(out)
}

/// Render an optional array-of-strings field.
fn enc_opt_vec_string(o: &Option<Vec<String>>) -> (r: JsonValue)
    ensures
        jv_model(r) == se_opt_vec_string(o.deep_view()),
{
    match o {
        Option::Some(v) => enc_vec_string(v),
        Option::None => JsonValue::Null,
    }
}

/// EnforcementLevel, as its wire strings spell it.
#[derive(Clone, Copy, Debug, PartialEq, Eq, Structural)]
pub enum EnforcementLevel {
    Off,
    NonAdmins,
    Everyone,
}

/// The wire string of a `EnforcementLevel` value.
pub open spec fn enforcement_level_text(e: EnforcementLevel) -> Seq<char> {
    match e {
        EnforcementLevel::Off => "off"@,
        EnforcementLevel::NonAdmins => "non_admins"@,
        EnforcementLevel::Everyone => "everyone"@,
    }
}

/// Decode a required `EnforcementLevel` field from its wire string.
pub open spec fn sd_enforcement_level(f: Option<JsonModel>) -> Result<EnforcementLevel, DecodeErrorKind> {
    match f {
        Option::None => Err(DecodeErrorKind::MissingField),
        Option::Some(JsonModel::Str(s)) => {
            if s == "off"@ {
                Ok(EnforcementLevel::Off)
            } else if s == "non_admins"@ {
                Ok(EnforcementLevel::NonAdmins)
            } else if s == "everyone"@ {
                Ok(EnforcementLevel::Everyone)
            } else {
                Err(DecodeErrorKind::UnknownVariant)
            }
        },
        Option::Some(_) => Err(DecodeErrorKind::WrongType),
    }
}

/// Decode a required `EnforcementLevel` field.
fn dec_enforcement_level(f: Option<&JsonValue>) -> (r: Result<EnforcementLevel, DecodeErrorKind>)
    ensures
        match r {
            Ok(e) => sd_enforcement_level(fmodel(f)) == Ok::<EnforcementLevel, DecodeErrorKind>(e),
            Err(k) => sd_enforcement_level(fmodel(f)) == Err::<EnforcementLevel, DecodeErrorKind>(k),
        },
{
    match f {
        Option::None => Err(DecodeErrorKind::MissingField),
        Option::Some(JsonValue::Str(s)) => {
            if chars_eq_str(s.as_slice(), "off") {
                Ok(EnforcementLevel::Off)
            } else if chars_eq_str(s.as_slice(), "non_admins") {
                Ok(EnforcementLevel::NonAdmins)
            } else if chars_eq_str(s.as_slice(), "everyone") {
                Ok(EnforcementLevel::Everyone)
            } else {
                Err(DecodeErrorKind::UnknownVariant)
            }
        },
        Option::Some(_) => Err(DecodeErrorKind::WrongType),
    }
}

/// The rendering of a `EnforcementLevel` value.
pub open spec fn se_enforcement_level(e: EnforcementLevel) -> JsonModel {
    JsonModel::Str(enforcement_level_text(e))
}

/// Render a `EnforcementLevel` field.
fn enc_enforcement_level(e: &EnforcementLevel) -> (r: JsonValue)
    ensures
        jv_model(r) == se_enforcement_level(*e),
{
    match e {
        EnforcementLevel::Off => JsonValue::Str(str_to_chars("off")),
        EnforcementLevel::NonAdmins => JsonValue::Str(str_to_chars("non_admins")),
        EnforcementLevel::Everyone => JsonValue::Str(str_to_chars("everyone")),
    }
}

/// Decoding the rendering of a `EnforcementLevel` value gives the value back.
proof fn lemma_rt_enforcement_level(e: EnforcementLevel)
    ensures
        sd_enforcement_level(Some(se_enforcement_level(e))) == Ok::<EnforcementLevel, DecodeErrorKind>(e),
{
    reveal_strlit("off");
    reveal_strlit("non_admins");
    reveal_strlit("everyone");
    assert("off"@.len() == 3);
    assert("non_admins"@.len() == 10);
    assert("everyone"@.len() == 8);
    match e {
        EnforcementLevel::Off => {
            assert(se_enforcement_level(e) == JsonModel::Str("off"@));
            assert(sd_enforcement_level(Some(se_enforcement_level(e))) == Ok::<EnforcementLevel, DecodeErrorKind>(e));
        },
        EnforcementLevel::NonAdmins => {
            assert(se_enforcement_level(e) == JsonModel::Str("non_admins"@));
            assert(sd_enforcement_level(Some(se_enforcement_level(e))) == Ok::<EnforcementLevel, DecodeErrorKind>(e));
        },
        EnforcementLevel::Everyone => {
            assert(se_enforcement_level(e) == JsonModel::Str("everyone"@));
            assert(sd_enforcement_level(Some(se_enforcement_level(e))) == Ok::<EnforcementLevel, DecodeErrorKind>(e));
        },
    }
}

/// Web, as its wire strings spell it.
#[derive(Clone, Copy, Debug, PartialEq, Eq, Structural)]
pub enum Web {
    Web,
}

/// The wire string of a `Web` value.
pub open spec fn web_text(e: Web) -> Seq<char> {
    match e {
        Web::Web => "web"@,
    }
}

/// Decode a required `Web` field from its wire string.
pub open spec fn sd_web(f: Option<JsonModel>) -> Result<Web, DecodeErrorKind> {
    match f {
        Option::None => Err(DecodeErrorKind::MissingField),
        Option::Some(JsonModel::Str(s)) => {
            if s == "web"@ {
                Ok(Web::Web)
            } else {
                Err(DecodeErrorKind::UnknownVariant)
            }
        },
        Option::Some(_) => Err(DecodeErrorKind::WrongType),
    }
}

/// Decode a required `Web` field.
fn dec_web(f: Option<&JsonValue>) -> (r: Result<Web, DecodeErrorKind>)
    ensures
        match r {
            Ok(e) => sd_web(fmodel(f)) == Ok::<Web, DecodeErrorKind>(e),
            Err(k) => sd_web(fmodel(f)) == Err::<Web, DecodeErrorKind>(k),
        },
{
    match f {
        Option::None => Err(DecodeErrorKind::MissingField),
        Option::Some(JsonValue::Str(s)) => {
            if chars_eq_str(s.as_slice(), "web") {
                Ok(Web::Web)
            } else {
                Err(DecodeErrorKind::UnknownVariant)
            }
        },
        Option::Some(_) => Err(DecodeErrorKind::WrongType),
    }
}

/// The rendering of a `Web` value.
pub open spec fn se_web(e: Web) -> JsonModel {
    JsonModel::Str(web_text(e))
}

/// Render a `Web` field.
fn enc_web(e: &Web) -> (r: JsonValue)
    ensures
        jv_model(r) == se_web(*e),
{
    match e {
        Web::Web => JsonValue::Str(str_to_chars("web")),
    }
}

/// Decoding the rendering of a `Web` value gives the value back.
proof fn lemma_rt_web(e: Web)
    ensures
        sd_web(Some(se_web(e))) == Ok::<Web, DecodeErrorKind>(e),
{
    reveal_strlit("web");
    assert("web"@.len() == 3);
    match e {
        Web::Web => {
            assert(se_web(e) == JsonModel::Str("web"@));
            assert(sd_web(Some(se_web(e))) == Ok::<Web, DecodeErrorKind>(e));
        },
    }
}

/// ContentType, as its wire strings spell it.
#[derive(Clone, Copy, Debug, PartialEq, Eq, Structural)]
pub enum ContentType {
    Json,
    Form,
}

/// The wire string of a `ContentType` value.
pub open spec fn content_type_text(e: ContentType) -> Seq<char> {
    match e {
        ContentType::Json => "json"@,
        ContentType::Form => "form"@,
    }
}

/// Decode a required `ContentType` field from its wire string.
pub open spec fn sd_content_type(f: Option<JsonModel>) -> Result<ContentType, DecodeErrorKind> {
    match f {
        Option::None => Err(DecodeErrorKind::MissingField),
        Option::Some(JsonModel::Str(s)) => {
            if s == "json"@ {
                Ok(ContentType::Json)
            } else if s == "form"@ {
                Ok(ContentType::Form)
            } else {
                Err(DecodeErrorKind::UnknownVariant)
            }
        },
        Option::Some(_) => Err(DecodeErrorKind::WrongType),
    }
}

/// Decode a required `ContentType` field.
fn dec_content_type(f: Option<&JsonValue>) -> (r: Result<ContentType, DecodeErrorKind>)
    ensures
        match r {
            Ok(e) => sd_content_type(fmodel(f)) == Ok::<ContentType, DecodeErrorKind>(e),
            Err(k) => sd_content_type(fmodel(f)) == Err::<ContentType, DecodeErrorKind>(k),
        },
{
    match f {
        Option::None => Err(DecodeErrorKind::MissingField),
        Option::Some(JsonValue::Str(s)) => {
            if chars_eq_str(s.as_slice(), "json") {
                Ok(ContentType::Json)
            } else if chars_eq_str(s.as_slice(), "form") {
                Ok(ContentType::Form)
            } else {
                Err(DecodeErrorKind::UnknownVariant)
            }
        },
        Option::Some(_) => Err(DecodeErrorKind::WrongType),
    }
}

/// The rendering of a `ContentType` value.
pub open spec fn se_content_type(e: ContentType) -> JsonModel {
    JsonModel::Str(content_type_text(e))
}

/// Render a `ContentType` field.
fn enc_content_type(e: &ContentType) -> (r: JsonValue)
    ensures
        jv_model(r) == se_content_type(*e),
{
    match e {
        ContentType::Json => JsonValue::Str(str_to_chars("json")),
        ContentType::Form => JsonValue::Str(str_to_chars("form")),
    }
}

/// Decoding the rendering of a `ContentType` value gives the value back.
proof fn lemma_rt_content_type(e: ContentType)
    ensures
        sd_content_type(Some(se_content_type(e))) == Ok::<ContentType, DecodeErrorKind>(e),
{
    reveal_strlit("json");
    reveal_strlit("form");
    assert("json"@.len() == 4);
    assert("form"@.len() == 4);
    assert("form"@[0] == 'f');
    assert("json"@[0] == 'j');
    match e {
        ContentType::Json => {
            assert(se_content_type(e) == JsonModel::Str("json"@));
            assert(sd_content_type(Some(se_content_type(e))) == Ok::<ContentType, DecodeErrorKind>(e));
        },
        ContentType::Form => {
            assert(se_content_type(e) == JsonModel::Str("form"@));
            assert(sd_content_type(Some(se_content_type(e))) == Ok::<ContentType, DecodeErrorKind>(e));
        },
    }
}

/// A value that a hook config writes either as a number or as a string.
/// A number keeps its literal text.
#[derive(Debug, PartialEq, Eq)]
pub enum NumberOrString {
    Number(String),
    Text(String),
}

/// The shape of a `NumberOrString` value.
pub enum NumberOrStringModel {
    Number(Seq<char>),
    Text(Seq<char>),
}

/// The model of a `NumberOrString` value.
pub open spec fn nos_model(n: NumberOrString) -> NumberOrStringModel {
    match n {
        NumberOrString::Number(t) => NumberOrStringModel::Number(t@),
        NumberOrString::Text(s) => NumberOrStringModel::Text(s@),
    }
}

impl Default for NumberOrString {
    /// The default is the empty string, as the hook config writes it.
    fn default() -> (r: Self)
        ensures
            nos_model(r) == NumberOrStringModel::Text(Seq::<char>::empty()),
    {
        NumberOrString::Text(String::new())
    }
}

/// Decode a required field that is either a number or a string.
pub open spec fn sd_nos(f: Option<JsonModel>) -> Result<NumberOrStringModel, DecodeErrorKind> {
    match f {
        Option::None => Err(DecodeErrorKind::MissingField),
        Option::Some(JsonModel::Num(t)) => Ok(NumberOrStringModel::Number(t)),
        Option::Some(JsonModel::Str(s)) => Ok(NumberOrStringModel::Text(s)),
        Option::Some(_) => Err(DecodeErrorKind::WrongType),
    }
}

/// Decode a number-or-string field.
fn dec_nos(f: Option<&JsonValue>) -> (r: Result<NumberOrString, DecodeErrorKind>)
    ensures
        match r {
            Ok(n) => sd_nos(fmodel(f)) == Ok::<NumberOrStringModel, DecodeErrorKind>(nos_model(n)),
            Err(k) => sd_nos(fmodel(f)) == Err::<NumberOrStringModel, DecodeErrorKind>(k),
        },
{
    match f {
        Option::None => Err(DecodeErrorKind::MissingField),
        Option::Some(JsonValue::Num(t)) => Ok(NumberOrString::Number(chars_to_string(t))),
        Option::Some(JsonValue::Str(s)) => Ok(NumberOrString::Text(chars_to_string(s))),
        Option::Some(_) => Err(DecodeErrorKind::WrongType),
    }
}

/// The rendering of a number-or-string value.
pub open spec fn se_nos(n: NumberOrStringModel) -> JsonModel {
    match n {
        NumberOrStringModel::Number(t) => JsonModel::Num(t),
        NumberOrStringModel::Text(s) => JsonModel::Str(s),
    }
}

/// Render a number-or-string field.
fn enc_nos(n: &NumberOrString) -> (r: JsonValue)
    ensures
        jv_model(r) == se_nos(nos_model(*n)),
{
    match n {
        NumberOrString::Number(t) => JsonValue::Num(str_to_chars(t.as_str())),
        NumberOrString::Text(s) => JsonValue::Str(str_to_chars(s.as_str())),
    }
}

/// Author record of an event payload.
#[derive(Debug, PartialEq)]
pub struct Author {
    pub date: Option<String>,
    pub email: String,
    pub name: String,
    pub username: Option<String>,
}

/// The shape of a `Author` record.
pub struct AuthorModel {
    pub date: Option<Seq<char>>,
    pub email: Seq<char>,
    pub name: Seq<char>,
    pub username: Option<Seq<char>>,
}

/// The model of a `Author` record.
pub open spec fn author_model(x: Author) -> AuthorModel {
    AuthorModel {
        date: x.date.deep_view(),
        email: x.email@,
        name: x.name@,
        username: x.username.deep_view(),
    }
}

/// Decode a required `Author` field.
pub open spec fn sd_req_author(f: Option<JsonModel>) -> Result<AuthorModel, DecodeErrorModel> {
    match f {
        Option::None => Err(DecodeErrorModel {
            path: Seq::empty(),
            kind: DecodeErrorKind::MissingField,
        }),
        Option::Some(m) => sd_author(m),
    }
}

/// Decode an optional `Author` field: absent or null is `None`.
pub open spec fn sd_opt_author(f: Option<JsonModel>) -> Result<Option<AuthorModel>, DecodeErrorModel> {
    match f {
        Option::None => Ok(None),
        Option::Some(JsonModel::Null) => Ok(None),
        Option::Some(m) => match sd_author(m) {
            Ok(x) => Ok(Some(x)),
            Err(em) => Err(em),
        },
    }
}

/// The model of an optional `Author` value.
pub open spec fn opt_author_model(o: Option<Author>) -> Option<AuthorModel> {
    match o {
        Option::Some(x) => Some(author_model(x)),
        Option::None => None,
    }
}

/// The models of a sequence of `Author` records.
pub open spec fn author_seq_model(s: Seq<Author>) -> Seq<AuthorModel> {
    Seq::new(s.len(), |i: int| author_model(s[i]))
}

/// Decode a `Author` record from a document.
pub open spec fn sd_author(m: JsonModel) -> Result<AuthorModel, DecodeErrorModel> {
    match m {
        JsonModel::Obj(ms) => {
            match sd_opt_string(field_of(ms, "date"@)) {
                Err(k) => Err(DecodeErrorModel { path: seq!["date"@], kind: k }),
                Ok(f_date) => {
                    match sd_string(field_of(ms, "email"@)) {
                        Err(k) => Err(DecodeErrorModel { path: seq!["email"@], kind: k }),
                        Ok(f_email) => {
                            match sd_string(field_of(ms, "name"@)) {
                                Err(k) => Err(DecodeErrorModel { path: seq!["name"@], kind: k }),
                                Ok(f_name) => {
                                    match sd_opt_string(field_of(ms, "username"@)) {
                                        Err(k) => Err(DecodeErrorModel { path: seq!["username"@], kind: k }),
                                        Ok(f_username) => {
                                            Ok(AuthorModel { date: f_date, email: f_email, name: f_name, username: f_username })
                                        },
                                    }
                                },
                            }
                        },
                    }
                },
            }
        },
        _ => Err(DecodeErrorModel { path: Seq::empty(), kind: DecodeErrorKind::WrongType }),
    }
}

/// Decode a `Author` record.
fn dec_author(v: &JsonValue) -> (r: Result<Author, DecodeError>)
    ensures
        match r {
            Ok(x) => sd_author(jv_model(*v)) == Ok::<AuthorModel, DecodeErrorModel>(author_model(x)),
            Err(e) => sd_author(jv_model(*v)) == Err::<AuthorModel, DecodeErrorModel>(err_model(e)),
        },
{
    broadcast use lemma_jv_model_obj, lemma_jv_model_arr;

    match v {
        JsonValue::Obj(ms) => {
            let f_date = match dec_opt_string(get_field(ms, "date")) {
                Ok(x) => x,
                Err(k) => {
                    return Err(err_at("date", k));
                },
            };
            let f_email = match dec_string(get_field(ms, "email")) {
                Ok(x) => x,
                Err(k) => {
                    return Err(err_at("email", k));
                },
            };
            let f_name = match dec_string(get_field(ms, "name")) {
                Ok(x) => x,
                Err(k) => {
                    return Err(err_at("name", k));
                },
            };
            let f_username = match dec_opt_string(get_field(ms, "username")) {
                Ok(x) => x,
                Err(k) => {
                    return Err(err_at("username", k));
                },
            };
            Ok(Author { date: f_date, email: f_email, name: f_name, username: f_username })
        },
        _ => Err(err_root(DecodeErrorKind::WrongType)),
    }
}

/// Decode a required `Author` field value.
fn dec_req_author(f: Option<&JsonValue>) -> (r: Result<Author, DecodeError>)
    ensures
        match r {
            Ok(x) => sd_req_author(fmodel(f)) == Ok::<AuthorModel, DecodeErrorModel>(author_model(x)),
            Err(e) => sd_req_author(fmodel(f)) == Err::<AuthorModel, DecodeErrorModel>(err_model(e)),
        },
{
    match f {
        Option::None => Err(err_root(DecodeErrorKind::MissingField)),
        Option::Some(v) => dec_author(v),
    }
}

/// Decode an optional `Author` field value.
fn dec_opt_author(f: Option<&JsonValue>) -> (r: Result<Option<Author>, DecodeError>)
    ensures
        match r {
            Ok(o) => sd_opt_author(fmodel(f)) == Ok::<Option<AuthorModel>, DecodeErrorModel>(
                opt_author_model(o),
            ),
            Err(e) => sd_opt_author(fmodel(f)) == Err::<Option<AuthorModel>, DecodeErrorModel>(
                err_model(e),
            ),
        },
{
    match f {
        Option::None => Ok(None),
        Option::Some(JsonValue::Null) => Ok(None),
        Option::Some(v) => match dec_author(v) {
            Ok(x) => Ok(Some(x)),
            Err(e) => Err(e),
        },
    }
}

/// The rendering of a `Author` record, members in schema order.
pub open spec fn se_author(x: AuthorModel) -> JsonModel {
    JsonModel::Obj(seq![
        ("date"@, se_opt_string(x.date)),
        ("email"@, se_string(x.email)),
        ("name"@, se_string(x.name)),
        ("username"@, se_opt_string(x.username)),
    ])
}

/// Render a `Author` record.
fn enc_author(x: &Author) -> (r: JsonValue)
    ensures
        jv_model(r) == se_author(author_model(*x)),
{
    broadcast use lemma_jv_model_obj;

    let mut ms: Vec<(Vec<char>, JsonValue)> = Vec::new();
    ms.push((str_to_chars("date"), enc_opt_string(&x.date)));
    ms.push((str_to_chars("email"), enc_string(&x.email)));
    ms.push((str_to_chars("name"), enc_string(&x.name)));
    ms.push((str_to_chars("username"), enc_opt_string(&x.username)));
    proof {
        assert(members_model(ms@) =~= se_author(author_model(*x))->Obj_0);
    }
    JsonValue::Obj(ms)
}

/// The rendering of an optional `Author` field.
pub open spec fn se_opt_author(o: Option<AuthorModel>) -> JsonModel {
    match o {
        Option::Some(x) => se_author(x),
        Option::None => JsonModel::Null,
    }
}

/// Render an optional `Author` field.
fn enc_opt_author(o: &Option<Author>) -> (r: JsonValue)
    ensures
        jv_model(r) == se_opt_author(opt_author_model(*o)),
{
    match o {
        Option::Some(x) => enc_author(x),
        Option::None => JsonValue::Null,
    }
}

/// Committer record of an event payload.
#[derive(Debug, PartialEq)]
pub struct Committer {
    pub date: Option<String>,
    pub email: Option<String>,
    pub name: String,
    pub username: Option<String>,
}

/// The shape of a `Committer` record.
pub struct CommitterModel {
    pub date: Option<Seq<char>>,
    pub email: Option<Seq<char>>,
    pub name: Seq<char>,
    pub username: Option<Seq<char>>,
}

/// The model of a `Committer` record.
pub open spec fn committer_model(x: Committer) -> CommitterModel {
    CommitterModel {
        date: x.date.deep_view(),
        email: x.email.deep_view(),
        name: x.name@,
        username: x.username.deep_view(),
    }
}

/// Decode a required `Committer` field.
pub open spec fn sd_req_committer(f: Option<JsonModel>) -> Result<CommitterModel, DecodeErrorModel> {
    match f {
        Option::None => Err(DecodeErrorModel {
            path: Seq::empty(),
            kind: DecodeErrorKind::MissingField,
        }),
        Option::Some(m) => sd_committer(m),
    }
}

/// Decode an optional `Committer` field: absent or null is `None`.
pub open spec fn sd_opt_committer(f: Option<JsonModel>) -> Result<Option<CommitterModel>, DecodeErrorModel> {
    match f {
        Option::None => Ok(None),
        Option::Some(JsonModel::Null) => Ok(None),
        Option::Some(m) => match sd_committer(m) {
            Ok(x) => Ok(Some(x)),
            Err(em) => Err(em),
        },
    }
}

/// The model of an optional `Committer` value.
pub open spec fn opt_committer_model(o: Option<Committer>) -> Option<CommitterModel> {
    match o {
        Option::Some(x) => Some(committer_model(x)),
        Option::None => None,
    }
}

/// The models of a sequence of `Committer` records.
pub open spec fn committer_seq_model(s: Seq<Committer>) -> Seq<CommitterModel> {
    Seq::new(s.len(), |i: int| committer_model(s[i]))
}

/// Decode a `Committer` record from a document.
pub open spec fn sd_committer(m: JsonModel) -> Result<CommitterModel, DecodeErrorModel> {
    match m {
        JsonModel::Obj(ms) => {
            match sd_opt_string(field_of(ms, "date"@)) {
                Err(k) => Err(DecodeErrorModel { path: seq!["date"@], kind: k }),
                Ok(f_date) => {
                    match sd_opt_string(field_of(ms, "email"@)) {
                        Err(k) => Err(DecodeErrorModel { path: seq!["email"@], kind: k }),
                        Ok(f_email) => {
                            match sd_string(field_of(ms, "name"@)) {
                                Err(k) => Err(DecodeErrorModel { path: seq!["name"@], kind: k }),
                                Ok(f_name) => {
                                    match sd_opt_string(field_of(ms, "username"@)) {
                                        Err(k) => Err(DecodeErrorModel { path: seq!["username"@], kind: k }),
                                        Ok(f_username) => {
                                            Ok(CommitterModel { date: f_date, email: f_email, name: f_name, username: f_username })
                                        },
                                    }
                                },
                            }
                        },
                    }
                },
            }
        },
        _ => Err(DecodeErrorModel { path: Seq::empty(), kind: DecodeErrorKind::WrongType }),
    }
}

/// Decode a `Committer` record.
fn dec_committer(v: &JsonValue) -> (r: Result<Committer, DecodeError>)
    ensures
        match r {
            Ok(x) => sd_committer(jv_model(*v)) == Ok::<CommitterModel, DecodeErrorModel>(committer_model(x)),
            Err(e) => sd_committer(jv_model(*v)) == Err::<CommitterModel, DecodeErrorModel>(err_model(e)),
        },
{
    broadcast use lemma_jv_model_obj, lemma_jv_model_arr;

    match v {
        JsonValue::Obj(ms) => {
            let f_date = match dec_opt_string(get_field(ms, "date")) {
                Ok(x) => x,
                Err(k) => {
                    return Err(err_at("date", k));
                },
            };
            let f_email = match dec_opt_string(get_field(ms, "email")) {
                Ok(x) => x,
                Err(k) => {
                    return Err(err_at("email", k));
                },
            };
            let f_name = match dec_string(get_field(ms, "name")) {
                Ok(x) => x,
                Err(k) => {
                    return Err(err_at("name", k));
                },
            };
            let f_username = match dec_opt_string(get_field(ms, "username")) {
                Ok(x) => x,
                Err(k) => {
                    return Err(err_at("username", k));
                },
            };
            Ok(Committer { date: f_date, email: f_email, name: f_name, username: f_username })
        },
        _ => Err(err_root(DecodeErrorKind::WrongType)),
    }
}

/// Decode a required `Committer` field value.
fn dec_req_committer(f: Option<&JsonValue>) -> (r: Result<Committer, DecodeError>)
    ensures
        match r {
            Ok(x) => sd_req_committer(fmodel(f)) == Ok::<CommitterModel, DecodeErrorModel>(committer_model(x)),
            Err(e) => sd_req_committer(fmodel(f)) == Err::<CommitterModel, DecodeErrorModel>(err_model(e)),
        },
{
    match f {
        Option::None => Err(err_root(DecodeErrorKind::MissingField)),
        Option::Some(v) => dec_committer(v),
    }
}

/// Decode an optional `Committer` field value.
fn dec_opt_committer(f: Option<&JsonValue>) -> (r: Result<Option<Committer>, DecodeError>)
    ensures
        match r {
            Ok(o) => sd_opt_committer(fmodel(f)) == Ok::<Option<CommitterModel>, DecodeErrorModel>(
                opt_committer_model(o),
            ),
            Err(e) => sd_opt_committer(fmodel(f)) == Err::<Option<CommitterModel>, DecodeErrorModel>(
                err_model(e),
            ),
        },
{
    match f {
        Option::None => Ok(None),
        Option::Some(JsonValue::Null) => Ok(None),
        Option::Some(v) => match dec_committer(v) {
            Ok(x) => Ok(Some(x)),
            Err(e) => Err(e),
        },
    }
}

/// The rendering of a `Committer` record, members in schema order.
pub open spec fn se_committer(x: CommitterModel) -> JsonModel {
    JsonModel::Obj(seq![
        ("date"@, se_opt_string(x.date)),
        ("email"@, se_opt_string(x.email)),
        ("name"@, se_string(x.name)),
        ("username"@, se_opt_string(x.username)),
    ])
}

/// Render a `Committer` record.
fn enc_committer(x: &Committer) -> (r: JsonValue)
    ensures
        jv_model(r) == se_committer(committer_model(*x)),
{
    broadcast use lemma_jv_model_obj;

    let mut ms: Vec<(Vec<char>, JsonValue)> = Vec::new();
    ms.push((str_to_chars("date"), enc_opt_string(&x.date)));
    ms.push((str_to_chars("email"), enc_opt_string(&x.email)));
    ms.push((str_to_chars("name"), enc_string(&x.name)));
    ms.push((str_to_chars("username"), enc_opt_string(&x.username)));
    proof {
        assert(members_model(ms@) =~= se_committer(committer_model(*x))->Obj_0);
    }
    JsonValue::Obj(ms)
}

/// The rendering of an optional `Committer` field.
pub open spec fn se_opt_committer(o: Option<CommitterModel>) -> JsonModel {
    match o {
        Option::Some(x) => se_committer(x),
        Option::None => JsonModel::Null,
    }
}

/// Render an optional `Committer` field.
fn enc_opt_committer(o: &Option<Committer>) -> (r: JsonValue)
    ensures
        jv_model(r) == se_opt_committer(opt_committer_model(*o)),
{
    match o {
        Option::Some(x) => enc_committer(x),
        Option::None => JsonValue::Null,
    }
}

/// Pusher record of an event payload.
#[derive(Debug, PartialEq)]
pub struct Pusher {
    pub date: Option<String>,
    pub email: Option<String>,
    pub name: String,
    pub username: Option<String>,
}

/// The shape of a `Pusher` record.
pub struct PusherModel {
    pub date: Option<Seq<char>>,
    pub email: Option<Seq<char>>,
    pub name: Seq<char>,
    pub username: Option<Seq<char>>,
}

/// The model of a `Pusher` record.
pub open spec fn pusher_model(x: Pusher) -> PusherModel {
    PusherModel {
        date: x.date.deep_view(),
        email: x.email.deep_view(),
        name: x.name@,
        username: x.username.deep_view(),
    }
}

/// Decode a required `Pusher` field.
pub open spec fn sd_req_pusher(f: Option<JsonModel>) -> Result<PusherModel, DecodeErrorModel> {
    match f {
        Option::None => Err(DecodeErrorModel {
            path: Seq::empty(),
            kind: DecodeErrorKind::MissingField,
        }),
        Option::Some(m) => sd_pusher(m),
    }
}

/// Decode an optional `Pusher` field: absent or null is `None`.
pub open spec fn sd_opt_pusher(f: Option<JsonModel>) -> Result<Option<PusherModel>, DecodeErrorModel> {
    match f {
        Option::None => Ok(None),
        Option::Some(JsonModel::Null) => Ok(None),
        Option::Some(m) => match sd_pusher(m) {
            Ok(x) => Ok(Some(x)),
            Err(em) => Err(em),
        },
    }
}

/// The model of an optional `Pusher` value.
pub open spec fn opt_pusher_model(o: Option<Pusher>) -> Option<PusherModel> {
    match o {
        Option::Some(x) => Some(pusher_model(x)),
        Option::None => None,
    }
}

/// The models of a sequence of `Pusher` records.
pub open spec fn pusher_seq_model(s: Seq<Pusher>) -> Seq<PusherModel> {
    Seq::new(s.len(), |i: int| pusher_model(s[i]))
}

/// Decode a `Pusher` record from a document.
pub open spec fn sd_pusher(m: JsonModel) -> Result<PusherModel, DecodeErrorModel> {
    match m {
        JsonModel::Obj(ms) => {
            match sd_opt_string(field_of(ms, "date"@)) {
                Err(k) => Err(DecodeErrorModel { path: seq!["date"@], kind: k }),
                Ok(f_date) => {
                    match sd_opt_string(field_of(ms, "email"@)) {
                        Err(k) => Err(DecodeErrorModel { path: seq!["email"@], kind: k }),
                        Ok(f_email) => {
                            match sd_string(field_of(ms, "name"@)) {
                                Err(k) => Err(DecodeErrorModel { path: seq!["name"@], kind: k }),
                                Ok(f_name) => {
                                    match sd_opt_string(field_of(ms, "username"@)) {
                                        Err(k) => Err(DecodeErrorModel { path: seq!["username"@], kind: k }),
                                        Ok(f_username) => {
                                            Ok(PusherModel { date: f_date, email: f_email, name: f_name, username: f_username })
                                        },
                                    }
                                },
                            }
                        },
                    }
                },
            }
        },
        _ => Err(DecodeErrorModel { path: Seq::empty(), kind: DecodeErrorKind::WrongType }),
    }
}

/// Decode a `Pusher` record.
fn dec_pusher(v: &JsonValue) -> (r: Result<Pusher, DecodeError>)
    ensures
        match r {
            Ok(x) => sd_pusher(jv_model(*v)) == Ok::<PusherModel, DecodeErrorModel>(pusher_model(x)),
            Err(e) => sd_pusher(jv_model(*v)) == Err::<PusherModel, DecodeErrorModel>(err_model(e)),
        },
{
    broadcast use lemma_jv_model_obj, lemma_jv_model_arr;

    match v {
        JsonValue::Obj(ms) => {
            let f_date = match dec_opt_string(get_field(ms, "date")) {
                Ok(x) => x,
                Err(k) => {
                    return Err(err_at("date", k));
                },
            };
            let f_email = match dec_opt_string(get_field(ms, "email")) {
                Ok(x) => x,
                Err(k) => {
                    return Err(err_at("email", k));
                },
            };
            let f_name = match dec_string(get_field(ms, "name")) {
                Ok(x) => x,
                Err(k) => {
                    return Err(err_at("name", k));
                },
            };
            let f_username = match dec_opt_string(get_field(ms, "username")) {
                Ok(x) => x,
                Err(k) => {
                    return Err(err_at("username", k));
                },
            };
            Ok(Pusher { date: f_date, email: f_email, name: f_name, username: f_username })
        },
        _ => Err(err_root(DecodeErrorKind::WrongType)),
    }
}

/// Decode a required `Pusher` field value.
fn dec_req_pusher(f: Option<&JsonValue>) -> (r: Result<Pusher, DecodeError>)
    ensures
        match r {
            Ok(x) => sd_req_pusher(fmodel(f)) == Ok::<PusherModel, DecodeErrorModel>(pusher_model(x)),
            Err(e) => sd_req_pusher(fmodel(f)) == Err::<PusherModel, DecodeErrorModel>(err_model(e)),
        },
{
    match f {
        Option::None => Err(err_root(DecodeErrorKind::MissingField)),
        Option::Some(v) => dec_pusher(v),
    }
}

/// Decode an optional `Pusher` field value.
fn dec_opt_pusher(f: Option<&JsonValue>) -> (r: Result<Option<Pusher>, DecodeError>)
    ensures
        match r {
            Ok(o) => sd_opt_pusher(fmodel(f)) == Ok::<Option<PusherModel>, DecodeErrorModel>(
                opt_pusher_model(o),
            ),
            Err(e) => sd_opt_pusher(fmodel(f)) == Err::<Option<PusherModel>, DecodeErrorModel>(
                err_model(e),
            ),
        },
{
    match f {
        Option::None => Ok(None),
        Option::Some(JsonValue::Null) => Ok(None),
        Option::Some(v) => match dec_pusher(v) {
            Ok(x) => Ok(Some(x)),
            Err(e) => Err(e),
        },
    }
}

/// The rendering of a `Pusher` record, members in schema order.
pub open spec fn se_pusher(x: PusherModel) -> JsonModel {
    JsonModel::Obj(seq![
        ("date"@, se_opt_string(x.date)),
        ("email"@, se_opt_string(x.email)),
        ("name"@, se_string(x.name)),
        ("username"@, se_opt_string(x.username)),
    ])
}

/// Render a `Pusher` record.
fn enc_pusher(x: &Pusher) -> (r: JsonValue)
    ensures
        jv_model(r) == se_pusher(pusher_model(*x)),
{
    broadcast use lemma_jv_model_obj;

    let mut ms: Vec<(Vec<char>, JsonValue)> = Vec::new();
    ms.push((str_to_chars("date"), enc_opt_string(&x.date)));
    ms.push((str_to_chars("email"), enc_opt_string(&x.email)));
    ms.push((str_to_chars("name"), enc_string(&x.name)));
    ms.push((str_to_chars("username"), enc_opt_string(&x.username)));
    proof {
        assert(members_model(ms@) =~= se_pusher(pusher_model(*x))->Obj_0);
    }
    JsonValue::Obj(ms)
}

/// The rendering of an optional `Pusher` field.
pub open spec fn se_opt_pusher(o: Option<PusherModel>) -> JsonModel {
    match o {
        Option::Some(x) => se_pusher(x),
        Option::None => JsonModel::Null,
    }
}

/// Render an optional `Pusher` field.
fn enc_opt_pusher(o: &Option<Pusher>) -> (r: JsonValue)
    ensures
        jv_model(r) == se_opt_pusher(opt_pusher_model(*o)),
{
    match o {
        Option::Some(x) => enc_pusher(x),
        Option::None => JsonValue::Null,
    }
}

/// Commit record of an event payload.
#[derive(Debug, PartialEq)]
pub struct Commit {
    pub added: Option<Vec<String>>,
    pub author: Author,
    pub committer: Committer,
    pub distinct: bool,
    pub id: String,
    pub message: String,
    pub modified: Option<Vec<String>>,
    pub removed: Option<Vec<String>>,
    pub timestamp: String,
    pub tree_id: String,
    pub url: String,
}

/// The shape of a `Commit` record.
pub struct CommitModel {
    pub added: Option<Seq<Seq<char>>>,
    pub author: AuthorModel,
    pub committer: CommitterModel,
    pub distinct: bool,
    pub id: Seq<char>,
    pub message: Seq<char>,
    pub modified: Option<Seq<Seq<char>>>,
    pub removed: Option<Seq<Seq<char>>>,
    pub timestamp: Seq<char>,
    pub tree_id: Seq<char>,
    pub url: Seq<char>,
}

/// The model of a `Commit` record.
pub open spec fn commit_model(x: Commit) -> CommitModel {
    CommitModel {
        added: x.added.deep_view(),
        author: author_model(x.author),
        committer: committer_model(x.committer),
        distinct: x.distinct,
        id: x.id@,
        message: x.message@,
        modified: x.modified.deep_view(),
        removed: x.removed.deep_view(),
        timestamp: x.timestamp@,
        tree_id: x.tree_id@,
        url: x.url@,
    }
}

/// Decode a required `Commit` field.
pub open spec fn sd_req_commit(f: Option<JsonModel>) -> Result<CommitModel, DecodeErrorModel> {
    match f {
        Option::None => Err(DecodeErrorModel {
            path: Seq::empty(),
            kind: DecodeErrorKind::MissingField,
        }),
        Option::Some(m) => sd_commit(m),
    }
}

/// Decode an optional `Commit` field: absent or null is `None`.
pub open spec fn sd_opt_commit(f: Option<JsonModel>) -> Result<Option<CommitModel>, DecodeErrorModel> {
    match f {
        Option::None => Ok(None),
        Option::Some(JsonModel::Null) => Ok(None),
        Option::Some(m) => match sd_commit(m) {
            Ok(x) => Ok(Some(x)),
            Err(em) => Err(em),
        },
    }
}

/// The model of an optional `Commit` value.
pub open spec fn opt_commit_model(o: Option<Commit>) -> Option<CommitModel> {
    match o {
        Option::Some(x) => Some(commit_model(x)),
        Option::None => None,
    }
}

/// The models of a sequence of `Commit` records.
pub open spec fn commit_seq_model(s: Seq<Commit>) -> Seq<CommitModel> {
    Seq::new(s.len(), |i: int| commit_model(s[i]))
}

/// Decode a `Commit` record from a document.
pub open spec fn sd_commit(m: JsonModel) -> Result<CommitModel, DecodeErrorModel> {
    match m {
        JsonModel::Obj(ms) => {
            match sd_opt_vec_string(field_of(ms, "added"@)) {
                Err(k) => Err(DecodeErrorModel { path: seq!["added"@], kind: k }),
                Ok(f_added) => {
                    match sd_req_author(field_of(ms, "author"@)) {
                        Err(em) => Err(DecodeErrorModel { path: (seq!["author"@] + em.path), kind: em.kind }),
                        Ok(f_author) => {
                            match sd_req_committer(field_of(ms, "committer"@)) {
                                Err(em) => Err(DecodeErrorModel { path: (seq!["committer"@] + em.path), kind: em.kind }),
                                Ok(f_committer) => {
                                    match sd_bool(field_of(ms, "distinct"@)) {
                                        Err(k) => Err(DecodeErrorModel { path: seq!["distinct"@], kind: k }),
                                        Ok(f_distinct) => {
                                            match sd_string(field_of(ms, "id"@)) {
                                                Err(k) => Err(DecodeErrorModel { path: seq!["id"@], kind: k }),
                                                Ok(f_id) => {
                                                    match sd_string(field_of(ms, "message"@)) {
                                                        Err(k) => Err(DecodeErrorModel { path: seq!["message"@], kind: k }),
                                                        Ok(f_message) => {
                                                            match sd_opt_vec_string(field_of(ms, "modified"@)) {
                                                                Err(k) => Err(DecodeErrorModel { path: seq!["modified"@], kind: k }),
                                                                Ok(f_modified) => {
                                                                    match sd_opt_vec_string(field_of(ms, "removed"@)) {
                                                                        Err(k) => Err(DecodeErrorModel { path: seq!["removed"@], kind: k }),
                                                                        Ok(f_removed) => {
                                                                            match sd_string(field_of(ms, "timestamp"@)) {
                                                                                Err(k) => Err(DecodeErrorModel { path: seq!["timestamp"@], kind: k }),
                                                                                Ok(f_timestamp) => {
                                                                                    match sd_string(field_of(ms, "tree_id"@)) {
                                                                                        Err(k) => Err(DecodeErrorModel { path: seq!["tree_id"@], kind: k }),
                                                                                        Ok(f_tree_id) => {
                                                                                            match sd_string(field_of(ms, "url"@)) {
                                                                                                Err(k) => Err(DecodeErrorModel { path: seq!["url"@], kind: k }),
                                                                                                Ok(f_url) => {
                                                                                                    Ok(CommitModel { added: f_added, author: f_author, committer: f_committer, distinct: f_distinct, id: f_id, message: f_message, modified: f_modified, removed: f_removed, timestamp: f_timestamp, tree_id: f_tree_id, url: f_url })
                                                                                                },
                                                                                            }
                                                                                        },
                                                                                    }
                                                                                },
                                                                            }
                                                                        },
                                                                    }
                                                                },
                                                            }
                                                        },
                                                    }
                                                },
                                            }
                                        },
                                    }
                                },
                            }
                        },
                    }
                },
            }
        },
        _ => Err(DecodeErrorModel { path: Seq::empty(), kind: DecodeErrorKind::WrongType }),
    }
}

/// Decode a `Commit` record.
#[verifier::rlimit(100)]
fn dec_commit(v: &JsonValue) -> (r: Result<Commit, DecodeError>)
    ensures
        match r {
            Ok(x) => sd_commit(jv_model(*v)) == Ok::<CommitModel, DecodeErrorModel>(commit_model(x)),
            Err(e) => sd_commit(jv_model(*v)) == Err::<CommitModel, DecodeErrorModel>(err_model(e)),
        },
{
    broadcast use lemma_jv_model_obj, lemma_jv_model_arr;

    match v {
        JsonValue::Obj(ms) => {
            let f_added = match dec_opt_vec_string(get_field(ms, "added")) {
                Ok(x) => x,
                Err(k) => {
                    return Err(err_at("added", k));
                },
            };
            let f_author = match dec_req_author(get_field(ms, "author")) {
                Ok(x) => x,
                Err(e) => {
                    return Err(with_segment(e, "author"));
                },
            };
            let f_committer = match dec_req_committer(get_field(ms, "committer")) {
                Ok(x) => x,
                Err(e) => {
                    return Err(with_segment(e, "committer"));
                },
            };
            let f_distinct = match dec_bool(get_field(ms, "distinct")) {
                Ok(x) => x,
                Err(k) => {
                    return Err(err_at("distinct", k));
                },
            };
            let f_id = match dec_string(get_field(ms, "id")) {
                Ok(x) => x,
                Err(k) => {
                    return Err(err_at("id", k));
                },
            };
            let f_message = match dec_string(get_field(ms, "message")) {
                Ok(x) => x,
                Err(k) => {
                    return Err(err_at("message", k));
                },
            };
            let f_modified = match dec_opt_vec_string(get_field(ms, "modified")) {
                Ok(x) => x,
                Err(k) => {
                    return Err(err_at("modified", k));
                },
            };
            let f_removed = match dec_opt_vec_string(get_field(ms, "removed")) {
                Ok(x) => x,
                Err(k) => {
                    return Err(err_at("removed", k));
                },
            };
            let f_timestamp = match dec_string(get_field(ms, "timestamp")) {
                Ok(x) => x,
                Err(k) => {
                    return Err(err_at("timestamp", k));
                },
            };
            let f_tree_id = match dec_string(get_field(ms, "tree_id")) {
                Ok(x) => x,
                Err(k) => {
                    return Err(err_at("tree_id", k));
                },
            };
            let f_url = match dec_string(get_field(ms, "url")) {
                Ok(x) => x,
                Err(k) => {
                    return Err(err_at("url", k));
                },
            };
            Ok(Commit { added: f_added, author: f_author, committer: f_committer, distinct: f_distinct, id: f_id, message: f_message, modified: f_modified, removed: f_removed, timestamp: f_timestamp, tree_id: f_tree_id, url: f_url })
        },
        _ => Err(err_root(DecodeErrorKind::WrongType)),
    }
}

/// Decode a required `Commit` field value.
fn dec_req_commit(f: Option<&JsonValue>) -> (r: Result<Commit, DecodeError>)
    ensures
        match r {
            Ok(x) => sd_req_commit(fmodel(f)) == Ok::<CommitModel, DecodeErrorModel>(commit_model(x)),
            Err(e) => sd_req_commit(fmodel(f)) == Err::<CommitModel, DecodeErrorModel>(err_model(e)),
        },
{
    match f {
        Option::None => Err(err_root(DecodeErrorKind::MissingField)),
        Option::Some(v) => dec_commit(v),
    }
}

/// Decode an optional `Commit` field value.
fn dec_opt_commit(f: Option<&JsonValue>) -> (r: Result<Option<Commit>, DecodeError>)
    ensures
        match r {
            Ok(o) => sd_opt_commit(fmodel(f)) == Ok::<Option<CommitModel>, DecodeErrorModel>(
                opt_commit_model(o),
            ),
            Err(e) => sd_opt_commit(fmodel(f)) == Err::<Option<CommitModel>, DecodeErrorModel>(
                err_model(e),
            ),
        },
{
    match f {
        Option::None => Ok(None),
        Option::Some(JsonValue::Null) => Ok(None),
        Option::Some(v) => match dec_commit(v) {
            Ok(x) => Ok(Some(x)),
            Err(e) => Err(e),
        },
    }
}

/// The rendering of a `Commit` record, members in schema order.
pub open spec fn se_commit(x: CommitModel) -> JsonModel {
    JsonModel::Obj(seq![
        ("added"@, se_opt_vec_string(x.added)),
        ("author"@, se_author(x.author)),
        ("committer"@, se_committer(x.committer)),
        ("distinct"@, se_bool(x.distinct)),
        ("id"@, se_string(x.id)),
        ("message"@, se_string(x.message)),
        ("modified"@, se_opt_vec_string(x.modified)),
        ("removed"@, se_opt_vec_string(x.removed)),
        ("timestamp"@, se_string(x.timestamp)),
        ("tree_id"@, se_string(x.tree_id)),
        ("url"@, se_string(x.url)),
    ])
}

/// Render a `Commit` record.
#[verifier::rlimit(100)]
fn enc_commit(x: &Commit) -> (r: JsonValue)
    ensures
        jv_model(r) == se_commit(commit_model(*x)),
{
    broadcast use lemma_jv_model_obj;

    let mut ms: Vec<(Vec<char>, JsonValue)> = Vec::new();
    ms.push((str_to_chars("added"), enc_opt_vec_string(&x.added)));
    ms.push((str_to_chars("author"), enc_author(&x.author)));
    ms.push((str_to_chars("committer"), enc_committer(&x.committer)));
    ms.push((str_to_chars("distinct"), JsonValue::Bool(x.distinct)));
    ms.push((str_to_chars("id"), enc_string(&x.id)));
    ms.push((str_to_chars("message"), enc_string(&x.message)));
    ms.push((str_to_chars("modified"), enc_opt_vec_string(&x.modified)));
    ms.push((str_to_chars("removed"), enc_opt_vec_string(&x.removed)));
    ms.push((str_to_chars("timestamp"), enc_string(&x.timestamp)));
    ms.push((str_to_chars("tree_id"), enc_string(&x.tree_id)));
    ms.push((str_to_chars("url"), enc_string(&x.url)));
    proof {
        assert(members_model(ms@) =~= se_commit(commit_model(*x))->Obj_0);
    }
    JsonValue::Obj(ms)
}

/// The rendering of an optional `Commit` field.
pub open spec fn se_opt_commit(o: Option<CommitModel>) -> JsonModel {
    match o {
        Option::Some(x) => se_commit(x),
        Option::None => JsonModel::Null,
    }
}

/// Render an optional `Commit` field.
fn enc_opt_commit(o: &Option<Commit>) -> (r: JsonValue)
    ensures
        jv_model(r) == se_opt_commit(opt_commit_model(*o)),
{
    match o {
        Option::Some(x) => enc_commit(x),
        Option::None => JsonValue::Null,
    }
}

/// HeadCommit record of an event payload.
#[derive(Debug, PartialEq)]
pub struct HeadCommit {
    pub added: Option<Vec<String>>,
    pub author: Author,
    pub committer: Committer,
    pub distinct: bool,
    pub id: String,
    pub message: String,
    pub modified: Option<Vec<String>>,
    pub removed: Option<Vec<String>>,
    pub timestamp: String,
    pub tree_id: String,
    pub url: String,
}

/// The shape of a `HeadCommit` record.
pub struct HeadCommitModel {
    pub added: Option<Seq<Seq<char>>>,
    pub author: AuthorModel,
    pub committer: CommitterModel,
    pub distinct: bool,
    pub id: Seq<char>,
    pub message: Seq<char>,
    pub modified: Option<Seq<Seq<char>>>,
    pub removed: Option<Seq<Seq<char>>>,
    pub timestamp: Seq<char>,
    pub tree_id: Seq<char>,
    pub url: Seq<char>,
}

/// The model of a `HeadCommit` record.
pub open spec fn head_commit_model(x: HeadCommit) -> HeadCommitModel {
    HeadCommitModel {
        added: x.added.deep_view(),
        author: author_model(x.author),
        committer: committer_model(x.committer),
        distinct: x.distinct,
        id: x.id@,
        message: x.message@,
        modified: x.modified.deep_view(),
        removed: x.removed.deep_view(),
        timestamp: x.timestamp@,
        tree_id: x.tree_id@,
        url: x.url@,
    }
}

/// Decode a required `HeadCommit` field.
pub open spec fn sd_req_head_commit(f: Option<JsonModel>) -> Result<HeadCommitModel, DecodeErrorModel> {
    match f {
        Option::None => Err(DecodeErrorModel {
            path: Seq::empty(),
            kind: DecodeErrorKind::MissingField,
        }),
        Option::Some(m) => sd_head_commit(m),
    }
}

/// Decode an optional `HeadCommit` field: absent or null is `None`.
pub open spec fn sd_opt_head_commit(f: Option<JsonModel>) -> Result<Option<HeadCommitModel>, DecodeErrorModel> {
    match f {
        Option::None => Ok(None),
        Option::Some(JsonModel::Null) => Ok(None),
        Option::Some(m) => match sd_head_commit(m) {
            Ok(x) => Ok(Some(x)),
            Err(em) => Err(em),
        },
    }
}

/// The model of an optional `HeadCommit` value.
pub open spec fn opt_head_commit_model(o: Option<HeadCommit>) -> Option<HeadCommitModel> {
    match o {
        Option::Some(x) => Some(head_commit_model(x)),
        Option::None => None,
    }
}

/// The models of a sequence of `HeadCommit` records.
pub open spec fn head_commit_seq_model(s: Seq<HeadCommit>) -> Seq<HeadCommitModel> {
    Seq::new(s.len(), |i: int| head_commit_model(s[i]))
}

/// Decode a `HeadCommit` record from a document.
pub open spec fn sd_head_commit(m: JsonModel) -> Result<HeadCommitModel, DecodeErrorModel> {
    match m {
        JsonModel::Obj(ms) => {
            match sd_opt_vec_string(field_of(ms, "added"@)) {
                Err(k) => Err(DecodeErrorModel { path: seq!["added"@], kind: k }),
                Ok(f_added) => {
                    match sd_req_author(field_of(ms, "author"@)) {
                        Err(em) => Err(DecodeErrorModel { path: (seq!["author"@] + em.path), kind: em.kind }),
                        Ok(f_author) => {
                            match sd_req_committer(field_of(ms, "committer"@)) {
                                Err(em) => Err(DecodeErrorModel { path: (seq!["committer"@] + em.path), kind: em.kind }),
                                Ok(f_committer) => {
                                    match sd_bool(field_of(ms, "distinct"@)) {
                                        Err(k) => Err(DecodeErrorModel { path: seq!["distinct"@], kind: k }),
                                        Ok(f_distinct) => {
                                            match sd_string(field_of(ms, "id"@)) {
                                                Err(k) => Err(DecodeErrorModel { path: seq!["id"@], kind: k }),
                                                Ok(f_id) => {
                                                    match sd_string(field_of(ms, "message"@)) {
                                                        Err(k) => Err(DecodeErrorModel { path: seq!["message"@], kind: k }),
                                                        Ok(f_message) => {
                                                            match sd_opt_vec_string(field_of(ms, "modified"@)) {
                                                                Err(k) => Err(DecodeErrorModel { path: seq!["modified"@], kind: k }),
                                                                Ok(f_modified) => {
                                                                    match sd_opt_vec_string(field_of(ms, "removed"@)) {
                                                                        Err(k) => Err(DecodeErrorModel { path: seq!["removed"@], kind: k }),
                                                                        Ok(f_removed) => {
                                                                            match sd_string(field_of(ms, "timestamp"@)) {
                                                                                Err(k) => Err(DecodeErrorModel { path: seq!["timestamp"@], kind: k }),
                                                                                Ok(f_timestamp) => {
                                                                                    match sd_string(field_of(ms, "tree_id"@)) {
                                                                                        Err(k) => Err(DecodeErrorModel { path: seq!["tree_id"@], kind: k }),
                                                                                        Ok(f_tree_id) => {
                                                                                            match sd_string(field_of(ms, "url"@)) {
                                                                                                Err(k) => Err(DecodeErrorModel { path: seq!["url"@], kind: k }),
                                                                                                Ok(f_url) => {
                                                                                                    Ok(HeadCommitModel { added: f_added, author: f_author, committer: f_committer, distinct: f_distinct, id: f_id, message: f_message, modified: f_modified, removed: f_removed, timestamp: f_timestamp, tree_id: f_tree_id, url: f_url })
                                                                                                },
                                                                                            }
                                                                                        },
                                                                                    }
                                                                                },
                                                                            }
                                                                        },
                                                                    }
                                                                },
                                                            }
                                                        },
                                                    }
                                                },
                                            }
                                        },
                                    }
                                },
                            }
                        },
                    }
                },
            }
        },
        _ => Err(DecodeErrorModel { path: Seq::empty(), kind: DecodeErrorKind::WrongType }),
    }
}

/// Decode a `HeadCommit` record.
#[verifier::rlimit(100)]
fn dec_head_commit(v: &JsonValue) -> (r: Result<HeadCommit, DecodeError>)
    ensures
        match r {
            Ok(x) => sd_head_commit(jv_model(*v)) == Ok::<HeadCommitModel, DecodeErrorModel>(head_commit_model(x)),
            Err(e) => sd_head_commit(jv_model(*v)) == Err::<HeadCommitModel, DecodeErrorModel>(err_model(e)),
        },
{
    broadcast use lemma_jv_model_obj, lemma_jv_model_arr;

    match v {
        JsonValue::Obj(ms) => {
            let f_added = match dec_opt_vec_string(get_field(ms, "added")) {
                Ok(x) => x,
                Err(k) => {
                    return Err(err_at("added", k));
                },
            };
            let f_author = match dec_req_author(get_field(ms, "author")) {
                Ok(x) => x,
                Err(e) => {
                    return Err(with_segment(e, "author"));
                },
            };
            let f_committer = match dec_req_committer(get_field(ms, "committer")) {
                Ok(x) => x,
                Err(e) => {
                    return Err(with_segment(e, "committer"));
                },
            };
            let f_distinct = match dec_bool(get_field(ms, "distinct")) {
                Ok(x) => x,
                Err(k) => {
                    return Err(err_at("distinct", k));
                },
            };
            let f_id = match dec_string(get_field(ms, "id")) {
                Ok(x) => x,
                Err(k) => {
                    return Err(err_at("id", k));
                },
            };
            let f_message = match dec_string(get_field(ms, "message")) {
                Ok(x) => x,
                Err(k) => {
                    return Err(err_at("message", k));
                },
            };
            let f_modified = match dec_opt_vec_string(get_field(ms, "modified")) {
                Ok(x) => x,
                Err(k) => {
                    return Err(err_at("modified", k));
                },
            };
            let f_removed = match dec_opt_vec_string(get_field(ms, "removed")) {
                Ok(x) => x,
                Err(k) => {
                    return Err(err_at("removed", k));
                },
            };
            let f_timestamp = match dec_string(get_field(ms, "timestamp")) {
                Ok(x) => x,
                Err(k) => {
                    return Err(err_at("timestamp", k));
                },
            };
            let f_tree_id = match dec_string(get_field(ms, "tree_id")) {
                Ok(x) => x,
                Err(k) => {
                    return Err(err_at("tree_id", k));
                },
            };
            let f_url = match dec_string(get_field(ms, "url")) {
                Ok(x) => x,
                Err(k) => {
                    return Err(err_at("url", k));
                },
            };
            Ok(HeadCommit { added: f_added, author: f_author, committer: f_committer, distinct: f_distinct, id: f_id, message: f_message, modified: f_modified, removed: f_removed, timestamp: f_timestamp, tree_id: f_tree_id, url: f_url })
        },
        _ => Err(err_root(DecodeErrorKind::WrongType)),
    }
}

/// Decode a required `HeadCommit` field value.
fn dec_req_head_commit(f: Option<&JsonValue>) -> (r: Result<HeadCommit, DecodeError>)
    ensures
        match r {
            Ok(x) => sd_req_head_commit(fmodel(f)) == Ok::<HeadCommitModel, DecodeErrorModel>(head_commit_model(x)),
            Err(e) => sd_req_head_commit(fmodel(f)) == Err::<HeadCommitModel, DecodeErrorModel>(err_model(e)),
        },
{
    match f {
        Option::None => Err(err_root(DecodeErrorKind::MissingField)),
        Option::Some(v) => dec_head_commit(v),
    }
}

/// Decode an optional `HeadCommit` field value.
fn dec_opt_head_commit(f: Option<&JsonValue>) -> (r: Result<Option<HeadCommit>, DecodeError>)
    ensures
        match r {
            Ok(o) => sd_opt_head_commit(fmodel(f)) == Ok::<Option<HeadCommitModel>, DecodeErrorModel>(
                opt_head_commit_model(o),
            ),
            Err(e) => sd_opt_head_commit(fmodel(f)) == Err::<Option<HeadCommitModel>, DecodeErrorModel>(
                err_model(e),
            ),
        },
{
    match f {
        Option::None => Ok(None),
        Option::Some(JsonValue::Null) => Ok(None),
        Option::Some(v) => match dec_head_commit(v) {
            Ok(x) => Ok(Some(x)),
            Err(e) => Err(e),
        },
    }
}

/// The rendering of a `HeadCommit` record, members in schema order.
pub open spec fn se_head_commit(x: HeadCommitModel) -> JsonModel {
    JsonModel::Obj(seq![
        ("added"@, se_opt_vec_string(x.added)),
        ("author"@, se_author(x.author)),
        ("committer"@, se_committer(x.committer)),
        ("distinct"@, se_bool(x.distinct)),
        ("id"@, se_string(x.id)),
        ("message"@, se_string(x.message)),
        ("modified"@, se_opt_vec_string(x.modified)),
        ("removed"@, se_opt_vec_string(x.removed)),
        ("timestamp"@, se_string(x.timestamp)),
        ("tree_id"@, se_string(x.tree_id)),
        ("url"@, se_string(x.url)),
    ])
}

/// Render a `HeadCommit` record.
#[verifier::rlimit(100)]
fn enc_head_commit(x: &HeadCommit) -> (r: JsonValue)
    ensures
        jv_model(r) == se_head_commit(head_commit_model(*x)),
{
    broadcast use lemma_jv_model_obj;

    let mut ms: Vec<(Vec<char>, JsonValue)> = Vec::new();
    ms.push((str_to_chars("added"), enc_opt_vec_string(&x.added)));
    ms.push((str_to_chars("author"), enc_author(&x.author)));
    ms.push((str_to_chars("committer"), enc_committer(&x.committer)));
    ms.push((str_to_chars("distinct"), JsonValue::Bool(x.distinct)));
    ms.push((str_to_chars("id"), enc_string(&x.id)));
    ms.push((str_to_chars("message"), enc_string(&x.message)));
    ms.push((str_to_chars("modified"), enc_opt_vec_string(&x.modified)));
    ms.push((str_to_chars("removed"), enc_opt_vec_string(&x.removed)));
    ms.push((str_to_chars("timestamp"), enc_string(&x.timestamp)));
    ms.push((str_to_chars("tree_id"), enc_string(&x.tree_id)));
    ms.push((str_to_chars("url"), enc_string(&x.url)));
    proof {
        assert(members_model(ms@) =~= se_head_commit(head_commit_model(*x))->Obj_0);
    }
    JsonValue::Obj(ms)
}

/// The rendering of an optional `HeadCommit` field.
pub open spec fn se_opt_head_commit(o: Option<HeadCommitModel>) -> JsonModel {
    match o {
        Option::Some(x) => se_head_commit(x),
        Option::None => JsonModel::Null,
    }
}

/// Render an optional `HeadCommit` field.
fn enc_opt_head_commit(o: &Option<HeadCommit>) -> (r: JsonValue)
    ensures
        jv_model(r) == se_opt_head_commit(opt_head_commit_model(*o)),
{
    match o {
        Option::Some(x) => enc_head_commit(x),
        Option::None => JsonValue::Null,
    }
}

/// LastResponse record of an event payload.
#[derive(Debug, PartialEq)]
pub struct LastResponse {
    pub code: Option<i64>,
    pub status: Option<String>,
    pub message: Option<String>,
}

/// The shape of a `LastResponse` record.
pub struct LastResponseModel {
    pub code: Option<i64>,
    pub status: Option<Seq<char>>,
    pub message: Option<Seq<char>>,
}

/// The model of a `LastResponse` record.
pub open spec fn last_response_model(x: LastResponse) -> LastResponseModel {
    LastResponseModel {
        code: x.code,
        status: x.status.deep_view(),
        message: x.message.deep_view(),
    }
}

/// Decode a required `LastResponse` field.
pub open spec fn sd_req_last_response(f: Option<JsonModel>) -> Result<LastResponseModel, DecodeErrorModel> {
    match f {
        Option::None => Err(DecodeErrorModel {
            path: Seq::empty(),
            kind: DecodeErrorKind::MissingField,
        }),
        Option::Some(m) => sd_last_response(m),
    }
}

/// Decode an optional `LastResponse` field: absent or null is `None`.
pub open spec fn sd_opt_last_response(f: Option<JsonModel>) -> Result<Option<LastResponseModel>, DecodeErrorModel> {
    match f {
        Option::None => Ok(None),
        Option::Some(JsonModel::Null) => Ok(None),
        Option::Some(m) => match sd_last_response(m) {
            Ok(x) => Ok(Some(x)),
            Err(em) => Err(em),
        },
    }
}

/// The model of an optional `LastResponse` value.
pub open spec fn opt_last_response_model(o: Option<LastResponse>) -> Option<LastResponseModel> {
    match o {
        Option::Some(x) => Some(last_response_model(x)),
        Option::None => None,
    }
}

/// The models of a sequence of `LastResponse` records.
pub open spec fn last_response_seq_model(s: Seq<LastResponse>) -> Seq<LastResponseModel> {
    Seq::new(s.len(), |i: int| last_response_model(s[i]))
}

/// Decode a `LastResponse` record from a document.
pub open spec fn sd_last_response(m: JsonModel) -> Result<LastResponseModel, DecodeErrorModel> {
    match m {
        JsonModel::Obj(ms) => {
            match sd_opt_i64(field_of(ms, "code"@)) {
                Err(k) => Err(DecodeErrorModel { path: seq!["code"@], kind: k }),
                Ok(f_code) => {
                    match sd_opt_string(field_of(ms, "status"@)) {
                        Err(k) => Err(DecodeErrorModel { path: seq!["status"@], kind: k }),
                        Ok(f_status) => {
                            match sd_opt_string(field_of(ms, "message"@)) {
                                Err(k) => Err(DecodeErrorModel { path: seq!["message"@], kind: k }),
                                Ok(f_message) => {
                                    Ok(LastResponseModel { code: f_code, status: f_status, message: f_message })
                                },
                            }
                        },
                    }
                },
            }
        },
        _ => Err(DecodeErrorModel { path: Seq::empty(), kind: DecodeErrorKind::WrongType }),
    }
}

/// Decode a `LastResponse` record.
fn dec_last_response(v: &JsonValue) -> (r: Result<LastResponse, DecodeError>)
    ensures
        match r {
            Ok(x) => sd_last_response(jv_model(*v)) == Ok::<LastResponseModel, DecodeErrorModel>(last_response_model(x)),
            Err(e) => sd_last_response(jv_model(*v)) == Err::<LastResponseModel, DecodeErrorModel>(err_model(e)),
        },
{
    broadcast use lemma_jv_model_obj, lemma_jv_model_arr;

    match v {
        JsonValue::Obj(ms) => {
            let f_code = match dec_opt_i64(get_field(ms, "code")) {
                Ok(x) => x,
                Err(k) => {
                    return Err(err_at("code", k));
                },
            };
            let f_status = match dec_opt_string(get_field(ms, "status")) {
                Ok(x) => x,
                Err(k) => {
                    return Err(err_at("status", k));
                },
            };
            let f_message = match dec_opt_string(get_field(ms, "message")) {
                Ok(x) => x,
                Err(k) => {
                    return Err(err_at("message", k));
                },
            };
            Ok(LastResponse { code: f_code, status: f_status, message: f_message })
        },
        _ => Err(err_root(DecodeErrorKind::WrongType)),
    }
}

/// Decode a required `LastResponse` field value.
fn dec_req_last_response(f: Option<&JsonValue>) -> (r: Result<LastResponse, DecodeError>)
    ensures
        match r {
            Ok(x) => sd_req_last_response(fmodel(f)) == Ok::<LastResponseModel, DecodeErrorModel>(last_response_model(x)),
            Err(e) => sd_req_last_response(fmodel(f)) == Err::<LastResponseModel, DecodeErrorModel>(err_model(e)),
        },
{
    match f {
        Option::None => Err(err_root(DecodeErrorKind::MissingField)),
        Option::Some(v) => dec_last_response(v),
    }
}

/// Decode an optional `LastResponse` field value.
fn dec_opt_last_response(f: Option<&JsonValue>) -> (r: Result<Option<LastResponse>, DecodeError>)
    ensures
        match r {
            Ok(o) => sd_opt_last_response(fmodel(f)) == Ok::<Option<LastResponseModel>, DecodeErrorModel>(
                opt_last_response_model(o),
            ),
            Err(e) => sd_opt_last_response(fmodel(f)) == Err::<Option<LastResponseModel>, DecodeErrorModel>(
                err_model(e),
            ),
        },
{
    match f {
        Option::None => Ok(None),
        Option::Some(JsonValue::Null) => Ok(None),
        Option::Some(v) => match dec_last_response(v) {
            Ok(x) => Ok(Some(x)),
            Err(e) => Err(e),
        },
    }
}

/// The rendering of a `LastResponse` record, members in schema order.
pub open spec fn se_last_response(x: LastResponseModel) -> JsonModel {
    JsonModel::Obj(seq![
        ("code"@, se_opt_i64(x.code)),
        ("status"@, se_opt_string(x.status)),
        ("message"@, se_opt_string(x.message)),
    ])
}

/// Render a `LastResponse` record.
fn enc_last_response(x: &LastResponse) -> (r: JsonValue)
    ensures
        jv_model(r) == se_last_response(last_response_model(*x)),
{
    broadcast use lemma_jv_model_obj;

    let mut ms: Vec<(Vec<char>, JsonValue)> = Vec::new();
    ms.push((str_to_chars("code"), enc_opt_i64(&x.code)));
    ms.push((str_to_chars("status"), enc_opt_string(&x.status)));
    ms.push((str_to_chars("message"), enc_opt_string(&x.message)));
    proof {
        assert(members_model(ms@) =~= se_last_response(last_response_model(*x))->Obj_0);
    }
    JsonValue::Obj(ms)
}

/// The rendering of an optional `LastResponse` field.
pub open spec fn se_opt_last_response(o: Option<LastResponseModel>) -> JsonModel {
    match o {
        Option::Some(x) => se_last_response(x),
        Option::None => JsonModel::Null,
    }
}

/// Render an optional `LastResponse` field.
fn enc_opt_last_response(o: &Option<LastResponse>) -> (r: JsonValue)
    ensures
        jv_model(r) == se_opt_last_response(opt_last_response_model(*o)),
{
    match o {
        Option::Some(x) => enc_last_response(x),
        Option::None => JsonValue::Null,
    }
}

/// Config record of an event payload.
#[derive(Debug, PartialEq)]
pub struct Config {
    pub content_type: ContentType,
    pub insecure_ssl: NumberOrString,
    pub secret: String,
    pub url: String,
}

/// The shape of a `Config` record.
pub struct ConfigModel {
    pub content_type: ContentType,
    pub insecure_ssl: NumberOrStringModel,
    pub secret: Seq<char>,
    pub url: Seq<char>,
}

/// The model of a `Config` record.
pub open spec fn config_model(x: Config) -> ConfigModel {
    ConfigModel {
        content_type: x.content_type,
        insecure_ssl: nos_model(x.insecure_ssl),
        secret: x.secret@,
        url: x.url@,
    }
}

/// Decode a required `Config` field.
pub open spec fn sd_req_config(f: Option<JsonModel>) -> Result<ConfigModel, DecodeErrorModel> {
    match f {
        Option::None => Err(DecodeErrorModel {
            path: Seq::empty(),
            kind: DecodeErrorKind::MissingField,
        }),
        Option::Some(m) => sd_config(m),
    }
}

/// Decode an optional `Config` field: absent or null is `None`.
pub open spec fn sd_opt_config(f: Option<JsonModel>) -> Result<Option<ConfigModel>, DecodeErrorModel> {
    match f {
        Option::None => Ok(None),
        Option::Some(JsonModel::Null) => Ok(None),
        Option::Some(m) => match sd_config(m) {
            Ok(x) => Ok(Some(x)),
            Err(em) => Err(em),
        },
    }
}

/// The model of an optional `Config` value.
pub open spec fn opt_config_model(o: Option<Config>) -> Option<ConfigModel> {
    match o {
        Option::Some(x) => Some(config_model(x)),
        Option::None => None,
    }
}

/// The models of a sequence of `Config` records.
pub open spec fn config_seq_model(s: Seq<Config>) -> Seq<ConfigModel> {
    Seq::new(s.len(), |i: int| config_model(s[i]))
}

/// Decode a `Config` record from a document.
pub open spec fn sd_config(m: JsonModel) -> Result<ConfigModel, DecodeErrorModel> {
    match m {
        JsonModel::Obj(ms) => {
            match sd_content_type(field_of(ms, "content_type"@)) {
                Err(k) => Err(DecodeErrorModel { path: seq!["content_type"@], kind: k }),
                Ok(f_content_type) => {
                    match sd_nos(field_of(ms, "insecure_ssl"@)) {
                        Err(k) => Err(DecodeErrorModel { path: seq!["insecure_ssl"@], kind: k }),
                        Ok(f_insecure_ssl) => {
                            match sd_string(field_of(ms, "secret"@)) {
                                Err(k) => Err(DecodeErrorModel { path: seq!["secret"@], kind: k }),
                                Ok(f_secret) => {
                                    match sd_string(field_of(ms, "url"@)) {
                                        Err(k) => Err(DecodeErrorModel { path: seq!["url"@], kind: k }),
                                        Ok(f_url) => {
                                            Ok(ConfigModel { content_type: f_content_type, insecure_ssl: f_insecure_ssl, secret: f_secret, url: f_url })
                                        },
                                    }
                                },
                            }
                        },
                    }
                },
            }
        },
        _ => Err(DecodeErrorModel { path: Seq::empty(), kind: DecodeErrorKind::WrongType }),
    }
}

/// Decode a `Config` record.
fn dec_config(v: &JsonValue) -> (r: Result<Config, DecodeError>)
    ensures
        match r {
            Ok(x) => sd_config(jv_model(*v)) == Ok::<ConfigModel, DecodeErrorModel>(config_model(x)),
            Err(e) => sd_config(jv_model(*v)) == Err::<ConfigModel, DecodeErrorModel>(err_model(e)),
        },
{
    broadcast use lemma_jv_model_obj, lemma_jv_model_arr;

    match v {
        JsonValue::Obj(ms) => {
            let f_content_type = match dec_content_type(get_field(ms, "content_type")) {
                Ok(x) => x,
                Err(k) => {
                    return Err(err_at("content_type", k));
                },
            };
            let f_insecure_ssl = match dec_nos(get_field(ms, "insecure_ssl")) {
                Ok(x) => x,
                Err(k) => {
                    return Err(err_at("insecure_ssl", k));
                },
            };
            let f_secret = match dec_string(get_field(ms, "secret")) {
                Ok(x) => x,
                Err(k) => {
                    return Err(err_at("secret", k));
                },
            };
            let f_url = match dec_string(get_field(ms, "url")) {
                Ok(x) => x,
                Err(k) => {
                    return Err(err_at("url", k));
                },
            };
            Ok(Config { content_type: f_content_type, insecure_ssl: f_insecure_ssl, secret: f_secret, url: f_url })
        },
        _ => Err(err_root(DecodeErrorKind::WrongType)),
    }
}

/// Decode a required `Config` field value.
fn dec_req_config(f: Option<&JsonValue>) -> (r: Result<Config, DecodeError>)
    ensures
        match r {
            Ok(x) => sd_req_config(fmodel(f)) == Ok::<ConfigModel, DecodeErrorModel>(config_model(x)),
            Err(e) => sd_req_config(fmodel(f)) == Err::<ConfigModel, DecodeErrorModel>(err_model(e)),
        },
{
    match f {
        Option::None => Err(err_root(DecodeErrorKind::MissingField)),
        Option::Some(v) => dec_config(v),
    }
}

/// Decode an optional `Config` field value.
fn dec_opt_config(f: Option<&JsonValue>) -> (r: Result<Option<Config>, DecodeError>)
    ensures
        match r {
            Ok(o) => sd_opt_config(fmodel(f)) == Ok::<Option<ConfigModel>, DecodeErrorModel>(
                opt_config_model(o),
            ),
            Err(e) => sd_opt_config(fmodel(f)) == Err::<Option<ConfigModel>, DecodeErrorModel>(
                err_model(e),
            ),
        },
{
    match f {
        Option::None => Ok(None),
        Option::Some(JsonValue::Null) => Ok(None),
        Option::Some(v) => match dec_config(v) {
            Ok(x) => Ok(Some(x)),
            Err(e) => Err(e),
        },
    }
}

/// The rendering of a `Config` record, members in schema order.
pub open spec fn se_config(x: ConfigModel) -> JsonModel {
    JsonModel::Obj(seq![
        ("content_type"@, se_content_type(x.content_type)),
        ("insecure_ssl"@, se_nos(x.insecure_ssl)),
        ("secret"@, se_string(x.secret)),
        ("url"@, se_string(x.url)),
    ])
}

/// Render a `Config` record.
fn enc_config(x: &Config) -> (r: JsonValue)
    ensures
        jv_model(r) == se_config(config_model(*x)),
{
    broadcast use lemma_jv_model_obj;

    let mut ms: Vec<(Vec<char>, JsonValue)> = Vec::new();
    ms.push((str_to_chars("content_type"), enc_content_type(&x.content_type)));
    ms.push((str_to_chars("insecure_ssl"), enc_nos(&x.insecure_ssl)));
    ms.push((str_to_chars("secret"), enc_string(&x.secret)));
    ms.push((str_to_chars("url"), enc_string(&x.url)));
    proof {
        assert(members_model(ms@) =~= se_config(config_model(*x))->Obj_0);
    }
    JsonValue::Obj(ms)
}

/// The rendering of an optional `Config` field.
pub open spec fn se_opt_config(o: Option<ConfigModel>) -> JsonModel {
    match o {
        Option::Some(x) => se_config(x),
        Option::None => JsonModel::Null,
    }
}

/// Render an optional `Config` field.
fn enc_opt_config(o: &Option<Config>) -> (r: JsonValue)
    ensures
        jv_model(r) == se_opt_config(opt_config_model(*o)),
{
    match o {
        Option::Some(x) => enc_config(x),
        Option::None => JsonValue::Null,
    }
}

/// Hook record of an event payload.
#[derive(Debug, PartialEq)]
pub struct Hook {
    pub active: bool,
    pub app_id: Option<i64>,
    pub config: Config,
    pub created_at: String,
    pub deliveries_url: Option<String>,
    pub events: Vec<String>,
    pub id: i64,
    pub last_response: Option<LastResponse>,
    pub name: Web,
    pub ping_url: Option<String>,
    pub test_url: Option<String>,
    pub hook_type: String,
    pub updated_at: String,
    pub url: Option<String>,
}

/// The shape of a `Hook` record.
pub struct HookModel {
    pub active: bool,
    pub app_id: Option<i64>,
    pub config: ConfigModel,
    pub created_at: Seq<char>,
    pub deliveries_url: Option<Seq<char>>,
    pub events: Seq<Seq<char>>,
    pub id: i64,
    pub last_response: Option<LastResponseModel>,
    pub name: Web,
    pub ping_url: Option<Seq<char>>,
    pub test_url: Option<Seq<char>>,
    pub hook_type: Seq<char>,
    pub updated_at: Seq<char>,
    pub url: Option<Seq<char>>,
}

/// The model of a `Hook` record.
pub open spec fn hook_model(x: Hook) -> HookModel {
    HookModel {
        active: x.active,
        app_id: x.app_id,
        config: config_model(x.config),
        created_at: x.created_at@,
        deliveries_url: x.deliveries_url.deep_view(),
        events: x.events.deep_view(),
        id: x.id,
        last_response: opt_last_response_model(x.last_response),
        name: x.name,
        ping_url: x.ping_url.deep_view(),
        test_url: x.test_url.deep_view(),
        hook_type: x.hook_type@,
        updated_at: x.updated_at@,
        url: x.url.deep_view(),
    }
}

/// Decode a required `Hook` field.
pub open spec fn sd_req_hook(f: Option<JsonModel>) -> Result<HookModel, DecodeErrorModel> {
    match f {
        Option::None => Err(DecodeErrorModel {
            path: Seq::empty(),
            kind: DecodeErrorKind::MissingField,
        }),
        Option::Some(m) => sd_hook(m),
    }
}

/// Decode an optional `Hook` field: absent or null is `None`.
pub open spec fn sd_opt_hook(f: Option<JsonModel>) -> Result<Option<HookModel>, DecodeErrorModel> {
    match f {
        Option::None => Ok(None),
        Option::Some(JsonModel::Null) => Ok(None),
        Option::Some(m) => match sd_hook(m) {
            Ok(x) => Ok(Some(x)),
            Err(em) => Err(em),
        },
    }
}

/// The model of an optional `Hook` value.
pub open spec fn opt_hook_model(o: Option<Hook>) -> Option<HookModel> {
    match o {
        Option::Some(x) => Some(hook_model(x)),
        Option::None => None,
    }
}

/// The models of a sequence of `Hook` records.
pub open spec fn hook_seq_model(s: Seq<Hook>) -> Seq<HookModel> {
    Seq::new(s.len(), |i: int| hook_model(s[i]))
}

/// Decode a `Hook` record from a document.
pub open spec fn sd_hook(m: JsonModel) -> Result<HookModel, DecodeErrorModel> {
    match m {
        JsonModel::Obj(ms) => {
            match sd_bool(field_of(ms, "active"@)) {
                Err(k) => Err(DecodeErrorModel { path: seq!["active"@], kind: k }),
                Ok(f_active) => {
                    match sd_opt_i64(field_of(ms, "app_id"@)) {
                        Err(k) => Err(DecodeErrorModel { path: seq!["app_id"@], kind: k }),
                        Ok(f_app_id) => {
                            match sd_req_config(field_of(ms, "config"@)) {
                                Err(em) => Err(DecodeErrorModel { path: (seq!["config"@] + em.path), kind: em.kind }),
                                Ok(f_config) => {
                                    match sd_string(field_of(ms, "created_at"@)) {
                                        Err(k) => Err(DecodeErrorModel { path: seq!["created_at"@], kind: k }),
                                        Ok(f_created_at) => {
                                            match sd_opt_string(field_of(ms, "deliveries_url"@)) {
                                                Err(k) => Err(DecodeErrorModel { path: seq!["deliveries_url"@], kind: k }),
                                                Ok(f_deliveries_url) => {
                                                    match sd_vec_string(field_of(ms, "events"@)) {
                                                        Err(k) => Err(DecodeErrorModel { path: seq!["events"@], kind: k }),
                                                        Ok(f_events) => {
                                                            match sd_i64(field_of(ms, "id"@)) {
                                                                Err(k) => Err(DecodeErrorModel { path: seq!["id"@], kind: k }),
                                                                Ok(f_id) => {
                                                                    match sd_opt_last_response(field_of(ms, "last_response"@)) {
                                                                        Err(em) => Err(DecodeErrorModel { path: (seq!["last_response"@] + em.path), kind: em.kind }),
                                                                        Ok(f_last_response) => {
                                                                            match sd_web(field_of(ms, "name"@)) {
                                                                                Err(k) => Err(DecodeErrorModel { path: seq!["name"@], kind: k }),
                                                                                Ok(f_name) => {
                                                                                    match sd_opt_string(field_of(ms, "ping_url"@)) {
                                                                                        Err(k) => Err(DecodeErrorModel { path: seq!["ping_url"@], kind: k }),
                                                                                        Ok(f_ping_url) => {
                                                                                            match sd_opt_string(field_of(ms, "test_url"@)) {
                                                                                                Err(k) => Err(DecodeErrorModel { path: seq!["test_url"@], kind: k }),
                                                                                                Ok(f_test_url) => {
                                                                                                    match sd_string(field_of(ms, "type"@)) {
                                                                                                        Err(k) => Err(DecodeErrorModel { path: seq!["type"@], kind: k }),
                                                                                                        Ok(f_hook_type) => {
                                                                                                            match sd_string(field_of(ms, "updated_at"@)) {
                                                                                                                Err(k) => Err(DecodeErrorModel { path: seq!["updated_at"@], kind: k }),
                                                                                                                Ok(f_updated_at) => {
                                                                                                                    match sd_opt_string(field_of(ms, "url"@)) {
                                                                                                                        Err(k) => Err(DecodeErrorModel { path: seq!["url"@], kind: k }),
                                                                                                                        Ok(f_url) => {
                                                                                                                            Ok(HookModel { active: f_active, app_id: f_app_id, config: f_config, created_at: f_created_at, deliveries_url: f_deliveries_url, events: f_events, id: f_id, last_response: f_last_response, name: f_name, ping_url: f_ping_url, test_url: f_test_url, hook_type: f_hook_type, updated_at: f_updated_at, url: f_url })
                                                                                                                        },
                                                                                                                    }
                                                                                                                },
                                                                                                            }
                                                                                                        },
                                                                                                    }
                                                                                                },
                                                                                            }
                                                                                        },
                                                                                    }
                                                                                },
                                                                            }
                                                                        },
                                                                    }
                                                                },
                                                            }
                                                        },
                                                    }
                                                },
                                            }
                                        },
                                    }
                                },
                            }
                        },
                    }
                },
            }
        },
        _ => Err(DecodeErrorModel { path: Seq::empty(), kind: DecodeErrorKind::WrongType }),
    }
}

/// Decode a `Hook` record.
#[verifier::rlimit(100)]
fn dec_hook(v: &JsonValue) -> (r: Result<Hook, DecodeError>)
    ensures
        match r {
            Ok(x) => sd_hook(jv_model(*v)) == Ok::<HookModel, DecodeErrorModel>(hook_model(x)),
            Err(e) => sd_hook(jv_model(*v)) == Err::<HookModel, DecodeErrorModel>(err_model(e)),
        },
{
    broadcast use lemma_jv_model_obj, lemma_jv_model_arr;

    match v {
        JsonValue::Obj(ms) => {
            let f_active = match dec_bool(get_field(ms, "active")) {
                Ok(x) => x,
                Err(k) => {
                    return Err(err_at("active", k));
                },
            };
            let f_app_id = match dec_opt_i64(get_field(ms, "app_id")) {
                Ok(x) => x,
                Err(k) => {
                    return Err(err_at("app_id", k));
                },
            };
            let f_config = match dec_req_config(get_field(ms, "config")) {
                Ok(x) => x,
                Err(e) => {
                    return Err(with_segment(e, "config"));
                },
            };
            let f_created_at = match dec_string(get_field(ms, "created_at")) {
                Ok(x) => x,
                Err(k) => {
                    return Err(err_at("created_at", k));
                },
            };
            let f_deliveries_url = match dec_opt_string(get_field(ms, "deliveries_url")) {
                Ok(x) => x,
                Err(k) => {
                    return Err(err_at("deliveries_url", k));
                },
            };
            let f_events = match dec_vec_string(get_field(ms, "events")) {
                Ok(x) => x,
                Err(k) => {
                    return Err(err_at("events", k));
                },
            };
            let f_id = match dec_i64(get_field(ms, "id")) {
                Ok(x) => x,
                Err(k) => {
                    return Err(err_at("id", k));
                },
            };
            let f_last_response = match dec_opt_last_response(get_field(ms, "last_response")) {
                Ok(x) => x,
                Err(e) => {
                    return Err(with_segment(e, "last_response"));
                },
            };
            let f_name = match dec_web(get_field(ms, "name")) {
                Ok(x) => x,
                Err(k) => {
                    return Err(err_at("name", k));
                },
            };
            let f_ping_url = match dec_opt_string(get_field(ms, "ping_url")) {
                Ok(x) => x,
                Err(k) => {
                    return Err(err_at("ping_url", k));
                },
            };
            let f_test_url = match dec_opt_string(get_field(ms, "test_url")) {
                Ok(x) => x,
                Err(k) => {
                    return Err(err_at("test_url", k));
                },
            };
            let f_hook_type = match dec_string(get_field(ms, "type")) {
                Ok(x) => x,
                Err(k) => {
                    return Err(err_at("type", k));
                },
            };
            let f_updated_at = match dec_string(get_field(ms, "updated_at")) {
                Ok(x) => x,
                Err(k) => {
                    return Err(err_at("updated_at", k));
                },
            };
            let f_url = match dec_opt_string(get_field(ms, "url")) {
                Ok(x) => x,
                Err(k) => {
                    return Err(err_at("url", k));
                },
            };
            Ok(Hook { active: f_active, app_id: f_app_id, config: f_config, created_at: f_created_at, deliveries_url: f_deliveries_url, events: f_events, id: f_id, last_response: f_last_response, name: f_name, ping_url: f_ping_url, test_url: f_test_url, hook_type: f_hook_type, updated_at: f_updated_at, url: f_url })
        },
        _ => Err(err_root(DecodeErrorKind::WrongType)),
    }
}

/// Decode a required `Hook` field value.
fn dec_req_hook(f: Option<&JsonValue>) -> (r: Result<Hook, DecodeError>)
    ensures
        match r {
            Ok(x) => sd_req_hook(fmodel(f)) == Ok::<HookModel, DecodeErrorModel>(hook_model(x)),
            Err(e) => sd_req_hook(fmodel(f)) == Err::<HookModel, DecodeErrorModel>(err_model(e)),
        },
{
    match f {
        Option::None => Err(err_root(DecodeErrorKind::MissingField)),
        Option::Some(v) => dec_hook(v),
    }
}

/// Decode an optional `Hook` field value.
fn dec_opt_hook(f: Option<&JsonValue>) -> (r: Result<Option<Hook>, DecodeError>)
    ensures
        match r {
            Ok(o) => sd_opt_hook(fmodel(f)) == Ok::<Option<HookModel>, DecodeErrorModel>(
                opt_hook_model(o),
            ),
            Err(e) => sd_opt_hook(fmodel(f)) == Err::<Option<HookModel>, DecodeErrorModel>(
                err_model(e),
            ),
        },
{
    match f {
        Option::None => Ok(None),
        Option::Some(JsonValue::Null) => Ok(None),
        Option::Some(v) => match dec_hook(v) {
            Ok(x) => Ok(Some(x)),
            Err(e) => Err(e),
        },
    }
}

/// The rendering of a `Hook` record, members in schema order.
pub open spec fn se_hook(x: HookModel) -> JsonModel {
    JsonModel::Obj(seq![
        ("active"@, se_bool(x.active)),
        ("app_id"@, se_opt_i64(x.app_id)),
        ("config"@, se_config(x.config)),
        ("created_at"@, se_string(x.created_at)),
        ("deliveries_url"@, se_opt_string(x.deliveries_url)),
        ("events"@, se_vec_string(x.events)),
        ("id"@, se_i64(x.id)),
        ("last_response"@, se_opt_last_response(x.last_response)),
        ("name"@, se_web(x.name)),
        ("ping_url"@, se_opt_string(x.ping_url)),
        ("test_url"@, se_opt_string(x.test_url)),
        ("type"@, se_string(x.hook_type)),
        ("updated_at"@, se_string(x.updated_at)),
        ("url"@, se_opt_string(x.url)),
    ])
}

/// Render a `Hook` record.
#[verifier::rlimit(100)]
fn enc_hook(x: &Hook) -> (r: JsonValue)
    ensures
        jv_model(r) == se_hook(hook_model(*x)),
{
    broadcast use lemma_jv_model_obj;

    let mut ms: Vec<(Vec<char>, JsonValue)> = Vec::new();
    ms.push((str_to_chars("active"), JsonValue::Bool(x.active)));
    ms.push((str_to_chars("app_id"), enc_opt_i64(&x.app_id)));
    ms.push((str_to_chars("config"), enc_config(&x.config)));
    ms.push((str_to_chars("created_at"), enc_string(&x.created_at)));
    ms.push((str_to_chars("deliveries_url"), enc_opt_string(&x.deliveries_url)));
    ms.push((str_to_chars("events"), enc_vec_string(&x.events)));
    ms.push((str_to_chars("id"), enc_i64(x.id)));
    ms.push((str_to_chars("last_response"), enc_opt_last_response(&x.last_response)));
    ms.push((str_to_chars("name"), enc_web(&x.name)));
    ms.push((str_to_chars("ping_url"), enc_opt_string(&x.ping_url)));
    ms.push((str_to_chars("test_url"), enc_opt_string(&x.test_url)));
    ms.push((str_to_chars("type"), enc_string(&x.hook_type)));
    ms.push((str_to_chars("updated_at"), enc_string(&x.updated_at)));
    ms.push((str_to_chars("url"), enc_opt_string(&x.url)));
    proof {
        assert(members_model(ms@) =~= se_hook(hook_model(*x))->Obj_0);
    }
    JsonValue::Obj(ms)
}

/// The rendering of an optional `Hook` field.
pub open spec fn se_opt_hook(o: Option<HookModel>) -> JsonModel {
    match o {
        Option::Some(x) => se_hook(x),
        Option::None => JsonModel::Null,
    }
}

/// Render an optional `Hook` field.
fn enc_opt_hook(o: &Option<Hook>) -> (r: JsonValue)
    ensures
        jv_model(r) == se_opt_hook(opt_hook_model(*o)),
{
    match o {
        Option::Some(x) => enc_hook(x),
        Option::None => JsonValue::Null,
    }
}

/// BranchProtectionRule record of an event payload.
#[derive(Debug, PartialEq)]
pub struct BranchProtectionRule {
    pub admin_enforced: bool,
    pub allow_deletions_enforcement_level: String,
    pub authorized_actor_names: Vec<String>,
    pub authorized_actors_only: bool,
    pub authorized_dismissal_actors_only: bool,
    pub create_protected: bool,
    pub created_at: String,
    pub dismiss_stale_reviews_on_push: bool,
    pub id: i64,
    pub ignore_approvals_from_contributors: bool,
    pub linear_history_requirement_enforcement_level: EnforcementLevel,
    pub merge_queue_enforcement_level: EnforcementLevel,
    pub name: String,
    pub pull_request_revies_enforcement_level: EnforcementLevel,
    pub repository_id: i64,
    pub require_code_owner_review: bool,
    pub required_approving_review_count: i64,
    pub required_conversation_resolution_level: EnforcementLevel,
    pub required_deployments_enforcement_level: EnforcementLevel,
    pub required_status_checks: Vec<String>,
    pub required_status_checks_enforcement_level: EnforcementLevel,
    pub signature_requirement_enforcement_level: EnforcementLevel,
    pub strict_required_status_checks_policy: bool,
    pub updated_at: String,
}

/// The shape of a `BranchProtectionRule` record.
pub struct BranchProtectionRuleModel {
    pub admin_enforced: bool,
    pub allow_deletions_enforcement_level: Seq<char>,
    pub authorized_actor_names: Seq<Seq<char>>,
    pub authorized_actors_only: bool,
    pub authorized_dismissal_actors_only: bool,
    pub create_protected: bool,
    pub created_at: Seq<char>,
    pub dismiss_stale_reviews_on_push: bool,
    pub id: i64,
    pub ignore_approvals_from_contributors: bool,
    pub linear_history_requirement_enforcement_level: EnforcementLevel,
    pub merge_queue_enforcement_level: EnforcementLevel,
    pub name: Seq<char>,
    pub pull_request_revies_enforcement_level: EnforcementLevel,
    pub repository_id: i64,
    pub require_code_owner_review: bool,
    pub required_approving_review_count: i64,
    pub required_conversation_resolution_level: EnforcementLevel,
    pub required_deployments_enforcement_level: EnforcementLevel,
    pub required_status_checks: Seq<Seq<char>>,
    pub required_status_checks_enforcement_level: EnforcementLevel,
    pub signature_requirement_enforcement_level: EnforcementLevel,
    pub strict_required_status_checks_policy: bool,
    pub updated_at: Seq<char>,
}

/// The model of a `BranchProtectionRule` record.
pub open spec fn branch_protection_rule_model(x: BranchProtectionRule) -> BranchProtectionRuleModel {
    BranchProtectionRuleModel {
        admin_enforced: x.admin_enforced,
        allow_deletions_enforcement_level: x.allow_deletions_enforcement_level@,
        authorized_actor_names: x.authorized_actor_names.deep_view(),
        authorized_actors_only: x.authorized_actors_only,
        authorized_dismissal_actors_only: x.authorized_dismissal_actors_only,
        create_protected: x.create_protected,
        created_at: x.created_at@,
        dismiss_stale_reviews_on_push: x.dismiss_stale_reviews_on_push,
        id: x.id,
        ignore_approvals_from_contributors: x.ignore_approvals_from_contributors,
        linear_history_requirement_enforcement_level: x.linear_history_requirement_enforcement_level,
        merge_queue_enforcement_level: x.merge_queue_enforcement_level,
        name: x.name@,
        pull_request_revies_enforcement_level: x.pull_request_revies_enforcement_level,
        repository_id: x.repository_id,
        require_code_owner_review: x.require_code_owner_review,
        required_approving_review_count: x.required_approving_review_count,
        required_conversation_resolution_level: x.required_conversation_resolution_level,
        required_deployments_enforcement_level: x.required_deployments_enforcement_level,
        required_status_checks: x.required_status_checks.deep_view(),
        required_status_checks_enforcement_level: x.required_status_checks_enforcement_level,
        signature_requirement_enforcement_level: x.signature_requirement_enforcement_level,
        strict_required_status_checks_policy: x.strict_required_status_checks_policy,
        updated_at: x.updated_at@,
    }
}

/// Decode a required `BranchProtectionRule` field.
pub open spec fn sd_req_branch_protection_rule(f: Option<JsonModel>) -> Result<BranchProtectionRuleModel, DecodeErrorModel> {
    match f {
        Option::None => Err(DecodeErrorModel {
            path: Seq::empty(),
            kind: DecodeErrorKind::MissingField,
        }),
        Option::Some(m) => sd_branch_protection_rule(m),
    }
}

/// Decode an optional `BranchProtectionRule` field: absent or null is `None`.
pub open spec fn sd_opt_branch_protection_rule(f: Option<JsonModel>) -> Result<Option<BranchProtectionRuleModel>, DecodeErrorModel> {
    match f {
        Option::None => Ok(None),
        Option::Some(JsonModel::Null) => Ok(None),
        Option::Some(m) => match sd_branch_protection_rule(m) {
            Ok(x) => Ok(Some(x)),
            Err(em) => Err(em),
        },
    }
}

/// The model of an optional `BranchProtectionRule` value.
pub open spec fn opt_branch_protection_rule_model(o: Option<BranchProtectionRule>) -> Option<BranchProtectionRuleModel> {
    match o {
        Option::Some(x) => Some(branch_protection_rule_model(x)),
        Option::None => None,
    }
}

/// The models of a sequence of `BranchProtectionRule` records.
pub open spec fn branch_protection_rule_seq_model(s: Seq<BranchProtectionRule>) -> Seq<BranchProtectionRuleModel> {
    Seq::new(s.len(), |i: int| branch_protection_rule_model(s[i]))
}

/// Decode a `BranchProtectionRule` record from a document.
pub open spec fn sd_branch_protection_rule(m: JsonModel) -> Result<BranchProtectionRuleModel, DecodeErrorModel> {
    match m {
        JsonModel::Obj(ms) => {
            match sd_bool(field_of(ms, "admin_enforced"@)) {
                Err(k) => Err(DecodeErrorModel { path: seq!["admin_enforced"@], kind: k }),
                Ok(f_admin_enforced) => {
                    match sd_string(field_of(ms, "allow_deletions_enforcement_level"@)) {
                        Err(k) => Err(DecodeErrorModel { path: seq!["allow_deletions_enforcement_level"@], kind: k }),
                        Ok(f_allow_deletions_enforcement_level) => {
                            match sd_vec_string(field_of(ms, "authorized_actor_names"@)) {
                                Err(k) => Err(DecodeErrorModel { path: seq!["authorized_actor_names"@], kind: k }),
                                Ok(f_authorized_actor_names) => {
                                    match sd_bool(field_of(ms, "authorized_actors_only"@)) {
                                        Err(k) => Err(DecodeErrorModel { path: seq!["authorized_actors_only"@], kind: k }),
                                        Ok(f_authorized_actors_only) => {
                                            match sd_bool(field_of(ms, "authorized_dismissal_actors_only"@)) {
                                                Err(k) => Err(DecodeErrorModel { path: seq!["authorized_dismissal_actors_only"@], kind: k }),
                                                Ok(f_authorized_dismissal_actors_only) => {
                                                    match sd_bool(field_of(ms, "create_protected"@)) {
                                                        Err(k) => Err(DecodeErrorModel { path: seq!["create_protected"@], kind: k }),
                                                        Ok(f_create_protected) => {
                                                            match sd_string(field_of(ms, "created_at"@)) {
                                                                Err(k) => Err(DecodeErrorModel { path: seq!["created_at"@], kind: k }),
                                                                Ok(f_created_at) => {
                                                                    match sd_bool(field_of(ms, "dismiss_stale_reviews_on_push"@)) {
                                                                        Err(k) => Err(DecodeErrorModel { path: seq!["dismiss_stale_reviews_on_push"@], kind: k }),
                                                                        Ok(f_dismiss_stale_reviews_on_push) => {
                                                                            match sd_i64(field_of(ms, "id"@)) {
                                                                                Err(k) => Err(DecodeErrorModel { path: seq!["id"@], kind: k }),
                                                                                Ok(f_id) => {
                                                                                    match sd_bool(field_of(ms, "ignore_approvals_from_contributors"@)) {
                                                                                        Err(k) => Err(DecodeErrorModel { path: seq!["ignore_approvals_from_contributors"@], kind: k }),
                                                                                        Ok(f_ignore_approvals_from_contributors) => {
                                                                                            match sd_enforcement_level(field_of(ms, "linear_history_requirement_enforcement_level"@)) {
                                                                                                Err(k) => Err(DecodeErrorModel { path: seq!["linear_history_requirement_enforcement_level"@], kind: k }),
                                                                                                Ok(f_linear_history_requirement_enforcement_level) => {
                                                                                                    match sd_enforcement_level(field_of(ms, "merge_queue_enforcement_level"@)) {
                                                                                                        Err(k) => Err(DecodeErrorModel { path: seq!["merge_queue_enforcement_level"@], kind: k }),
                                                                                                        Ok(f_merge_queue_enforcement_level) => {
                                                                                                            match sd_string(field_of(ms, "name"@)) {
                                                                                                                Err(k) => Err(DecodeErrorModel { path: seq!["name"@], kind: k }),
                                                                                                                Ok(f_name) => {
                                                                                                                    match sd_enforcement_level(field_of(ms, "pull_request_revies_enforcement_level"@)) {
                                                                                                                        Err(k) => Err(DecodeErrorModel { path: seq!["pull_request_revies_enforcement_level"@], kind: k }),
                                                                                                                        Ok(f_pull_request_revies_enforcement_level) => {
                                                                                                                            match sd_i64(field_of(ms, "repository_id"@)) {
                                                                                                                                Err(k) => Err(DecodeErrorModel { path: seq!["repository_id"@], kind: k }),
                                                                                                                                Ok(f_repository_id) => {
                                                                                                                                    match sd_bool(field_of(ms, "require_code_owner_review"@)) {
                                                                                                                                        Err(k) => Err(DecodeErrorModel { path: seq!["require_code_owner_review"@], kind: k }),
                                                                                                                                        Ok(f_require_code_owner_review) => {
                                                                                                                                            match sd_i64(field_of(ms, "required_approving_review_count"@)) {
                                                                                                                                                Err(k) => Err(DecodeErrorModel { path: seq!["required_approving_review_count"@], kind: k }),
                                                                                                                                                Ok(f_required_approving_review_count) => {
                                                                                                                                                    match sd_enforcement_level(field_of(ms, "required_conversation_resolution_level"@)) {
                                                                                                                                                        Err(k) => Err(DecodeErrorModel { path: seq!["required_conversation_resolution_level"@], kind: k }),
                                                                                                                                                        Ok(f_required_conversation_resolution_level) => {
                                                                                                                                                            match sd_enforcement_level(field_of(ms, "required_deployments_enforcement_level"@)) {
                                                                                                                                                                Err(k) => Err(DecodeErrorModel { path: seq!["required_deployments_enforcement_level"@], kind: k }),
                                                                                                                                                                Ok(f_required_deployments_enforcement_level) => {
                                                                                                                                                                    match sd_vec_string(field_of(ms, "required_status_checks"@)) {
                                                                                                                                                                        Err(k) => Err(DecodeErrorModel { path: seq!["required_status_checks"@], kind: k }),
                                                                                                                                                                        Ok(f_required_status_checks) => {
                                                                                                                                                                            match sd_enforcement_level(field_of(ms, "required_status_checks_enforcement_level"@)) {
                                                                                                                                                                                Err(k) => Err(DecodeErrorModel { path: seq!["required_status_checks_enforcement_level"@], kind: k }),
                                                                                                                                                                                Ok(f_required_status_checks_enforcement_level) => {
                                                                                                                                                                                    match sd_enforcement_level(field_of(ms, "signature_requirement_enforcement_level"@)) {
                                                                                                                                                                                        Err(k) => Err(DecodeErrorModel { path: seq!["signature_requirement_enforcement_level"@], kind: k }),
                                                                                                                                                                                        Ok(f_signature_requirement_enforcement_level) => {
                                                                                                                                                                                            match sd_bool(field_of(ms, "strict_required_status_checks_policy"@)) {
                                                                                                                                                                                                Err(k) => Err(DecodeErrorModel { path: seq!["strict_required_status_checks_policy"@], kind: k }),
                                                                                                                                                                                                Ok(f_strict_required_status_checks_policy) => {
                                                                                                                                                                                                    match sd_string(field_of(ms, "updated_at"@)) {
                                                                                                                                                                                                        Err(k) => Err(DecodeErrorModel { path: seq!["updated_at"@], kind: k }),
                                                                                                                                                                                                        Ok(f_updated_at) => {
                                                                                                                                                                                                            Ok(BranchProtectionRuleModel { admin_enforced: f_admin_enforced, allow_deletions_enforcement_level: f_allow_deletions_enforcement_level, authorized_actor_names: f_authorized_actor_names, authorized_actors_only: f_authorized_actors_only, authorized_dismissal_actors_only: f_authorized_dismissal_actors_only, create_protected: f_create_protected, created_at: f_created_at, dismiss_stale_reviews_on_push: f_dismiss_stale_reviews_on_push, id: f_id, ignore_approvals_from_contributors: f_ignore_approvals_from_contributors, linear_history_requirement_enforcement_level: f_linear_history_requirement_enforcement_level, merge_queue_enforcement_level: f_merge_queue_enforcement_level, name: f_name, pull_request_revies_enforcement_level: f_pull_request_revies_enforcement_level, repository_id: f_repository_id, require_code_owner_review: f_require_code_owner_review, required_approving_review_count: f_required_approving_review_count, required_conversation_resolution_level: f_required_conversation_resolution_level, required_deployments_enforcement_level: f_required_deployments_enforcement_level, required_status_checks: f_required_status_checks, required_status_checks_enforcement_level: f_required_status_checks_enforcement_level, signature_requirement_enforcement_level: f_signature_requirement_enforcement_level, strict_required_status_checks_policy: f_strict_required_status_checks_policy, updated_at: f_updated_at })
                                                                                                                                                                                                        },
                                                                                                                                                                                                    }
                                                                                                                                                                                                },
                                                                                                                                                                                            }
                                                                                                                                                                                        },
                                                                                                                                                                                    }
                                                                                                                                                                                },
                                                                                                                                                                            }
                                                                                                                                                                        },
                                                                                                                                                                    }
                                                                                                                                                                },
                                                                                                                                                            }
                                                                                                                                                        },
                                                                                                                                                    }
                                                                                                                                                },
                                                                                                                                            }
                                                                                                                                        },
                                                                                                                                    }
                                                                                                                                },
                                                                                                                            }
                                                                                                                        },
                                                                                                                    }
                                                                                                                },
                                                                                                            }
                                                                                                        },
                                                                                                    }
                                                                                                },
                                                                                            }
                                                                                        },
                                                                                    }
                                                                                },
                                                                            }
                                                                        },
                                                                    }
                                                                },
                                                            }
                                                        },
                                                    }
                                                },
                                            }
                                        },
                                    }
                                },
                            }
                        },
                    }
                },
            }
        },
        _ => Err(DecodeErrorModel { path: Seq::empty(), kind: DecodeErrorKind::WrongType }),
    }
}

/// Decode a `BranchProtectionRule` record.
#[verifier::rlimit(100)]
fn dec_branch_protection_rule(v: &JsonValue) -> (r: Result<BranchProtectionRule, DecodeError>)
    ensures
        match r {
            Ok(x) => sd_branch_protection_rule(jv_model(*v)) == Ok::<BranchProtectionRuleModel, DecodeErrorModel>(branch_protection_rule_model(x)),
            Err(e) => sd_branch_protection_rule(jv_model(*v)) == Err::<BranchProtectionRuleModel, DecodeErrorModel>(err_model(e)),
        },
{
    broadcast use lemma_jv_model_obj, lemma_jv_model_arr;

    match v {
        JsonValue::Obj(ms) => {
            let f_admin_enforced = match dec_bool(get_field(ms, "admin_enforced")) {
                Ok(x) => x,
                Err(k) => {
                    return Err(err_at("admin_enforced", k));
                },
            };
            let f_allow_deletions_enforcement_level = match dec_string(get_field(ms, "allow_deletions_enforcement_level")) {
                Ok(x) => x,
                Err(k) => {
                    return Err(err_at("allow_deletions_enforcement_level", k));
                },
            };
            let f_authorized_actor_names = match dec_vec_string(get_field(ms, "authorized_actor_names")) {
                Ok(x) => x,
                Err(k) => {
                    return Err(err_at("authorized_actor_names", k));
                },
            };
            let f_authorized_actors_only = match dec_bool(get_field(ms, "authorized_actors_only")) {
                Ok(x) => x,
                Err(k) => {
                    return Err(err_at("authorized_actors_only", k));
                },
            };
            let f_authorized_dismissal_actors_only = match dec_bool(get_field(ms, "authorized_dismissal_actors_only")) {
                Ok(x) => x,
                Err(k) => {
                    return Err(err_at("authorized_dismissal_actors_only", k));
                },
            };
            let f_create_protected = match dec_bool(get_field(ms, "create_protected")) {
                Ok(x) => x,
                Err(k) => {
                    return Err(err_at("create_protected", k));
                },
            };
            let f_created_at = match dec_string(get_field(ms, "created_at")) {
                Ok(x) => x,
                Err(k) => {
                    return Err(err_at("created_at", k));
                },
            };
            let f_dismiss_stale_reviews_on_push = match dec_bool(get_field(ms, "dismiss_stale_reviews_on_push")) {
                Ok(x) => x,
                Err(k) => {
                    return Err(err_at("dismiss_stale_reviews_on_push", k));
                },
            };
            let f_id = match dec_i64(get_field(ms, "id")) {
                Ok(x) => x,
                Err(k) => {
                    return Err(err_at("id", k));
                },
            };
            let f_ignore_approvals_from_contributors = match dec_bool(get_field(ms, "ignore_approvals_from_contributors")) {
                Ok(x) => x,
                Err(k) => {
                    return Err(err_at("ignore_approvals_from_contributors", k));
                },
            };
            let f_linear_history_requirement_enforcement_level = match dec_enforcement_level(get_field(ms, "linear_history_requirement_enforcement_level")) {
                Ok(x) => x,
                Err(k) => {
                    return Err(err_at("linear_history_requirement_enforcement_level", k));
                },
            };
            let f_merge_queue_enforcement_level = match dec_enforcement_level(get_field(ms, "merge_queue_enforcement_level")) {
                Ok(x) => x,
                Err(k) => {
                    return Err(err_at("merge_queue_enforcement_level", k));
                },
            };
            let f_name = match dec_string(get_field(ms, "name")) {
                Ok(x) => x,
                Err(k) => {
                    return Err(err_at("name", k));
                },
            };
            let f_pull_request_revies_enforcement_level = match dec_enforcement_level(get_field(ms, "pull_request_revies_enforcement_level")) {
                Ok(x) => x,
                Err(k) => {
                    return Err(err_at("pull_request_revies_enforcement_level", k));
                },
            };
            let f_repository_id = match dec_i64(get_field(ms, "repository_id")) {
                Ok(x) => x,
                Err(k) => {
                    return Err(err_at("repository_id", k));
                },
            };
            let f_require_code_owner_review = match dec_bool(get_field(ms, "require_code_owner_review")) {
                Ok(x) => x,
                Err(k) => {
                    return Err(err_at("require_code_owner_review", k));
                },
            };
            let f_required_approving_review_count = match dec_i64(get_field(ms, "required_approving_review_count")) {
                Ok(x) => x,
                Err(k) => {
                    return Err(err_at("required_approving_review_count", k));
                },
            };
            let f_required_conversation_resolution_level = match dec_enforcement_level(get_field(ms, "required_conversation_resolution_level")) {
                Ok(x) => x,
                Err(k) => {
                    return Err(err_at("required_conversation_resolution_level", k));
                },
            };
            let f_required_deployments_enforcement_level = match dec_enforcement_level(get_field(ms, "required_deployments_enforcement_level")) {
                Ok(x) => x,
                Err(k) => {
                    return Err(err_at("required_deployments_enforcement_level", k));
                },
            };
            let f_required_status_checks = match dec_vec_string(get_field(ms, "required_status_checks")) {
                Ok(x) => x,
                Err(k) => {
                    return Err(err_at("required_status_checks", k));
                },
            };
            let f_required_status_checks_enforcement_level = match dec_enforcement_level(get_field(ms, "required_status_checks_enforcement_level")) {
                Ok(x) => x,
                Err(k) => {
                    return Err(err_at("required_status_checks_enforcement_level", k));
                },
            };
            let f_signature_requirement_enforcement_level = match dec_enforcement_level(get_field(ms, "signature_requirement_enforcement_level")) {
                Ok(x) => x,
                Err(k) => {
                    return Err(err_at("signature_requirement_enforcement_level", k));
                },
            };
            let f_strict_required_status_checks_policy = match dec_bool(get_field(ms, "strict_required_status_checks_policy")) {
                Ok(x) => x,
                Err(k) => {
                    return Err(err_at("strict_required_status_checks_policy", k));
                },
            };
            let f_updated_at = match dec_string(get_field(ms, "updated_at")) {
                Ok(x) => x,
                Err(k) => {
                    return Err(err_at("updated_at", k));
                },
            };
            Ok(BranchProtectionRule { admin_enforced: f_admin_enforced, allow_deletions_enforcement_level: f_allow_deletions_enforcement_level, authorized_actor_names: f_authorized_actor_names, authorized_actors_only: f_authorized_actors_only, authorized_dismissal_actors_only: f_authorized_dismissal_actors_only, create_protected: f_create_protected, created_at: f_created_at, dismiss_stale_reviews_on_push: f_dismiss_stale_reviews_on_push, id: f_id, ignore_approvals_from_contributors: f_ignore_approvals_from_contributors, linear_history_requirement_enforcement_level: f_linear_history_requirement_enforcement_level, merge_queue_enforcement_level: f_merge_queue_enforcement_level, name: f_name, pull_request_revies_enforcement_level: f_pull_request_revies_enforcement_level, repository_id: f_repository_id, require_code_owner_review: f_require_code_owner_review, required_approving_review_count: f_required_approving_review_count, required_conversation_resolution_level: f_required_conversation_resolution_level, required_deployments_enforcement_level: f_required_deployments_enforcement_level, required_status_checks: f_required_status_checks, required_status_checks_enforcement_level: f_required_status_checks_enforcement_level, signature_requirement_enforcement_level: f_signature_requirement_enforcement_level, strict_required_status_checks_policy: f_strict_required_status_checks_policy, updated_at: f_updated_at })
        },
        _ => Err(err_root(DecodeErrorKind::WrongType)),
    }
}

/// Decode a required `BranchProtectionRule` field value.
fn dec_req_branch_protection_rule(f: Option<&JsonValue>) -> (r: Result<BranchProtectionRule, DecodeError>)
    ensures
        match r {
            Ok(x) => sd_req_branch_protection_rule(fmodel(f)) == Ok::<BranchProtectionRuleModel, DecodeErrorModel>(branch_protection_rule_model(x)),
            Err(e) => sd_req_branch_protection_rule(fmodel(f)) == Err::<BranchProtectionRuleModel, DecodeErrorModel>(err_model(e)),
        },
{
    match f {
        Option::None => Err(err_root(DecodeErrorKind::MissingField)),
        Option::Some(v) => dec_branch_protection_rule(v),
    }
}

/// Decode an optional `BranchProtectionRule` field value.
fn dec_opt_branch_protection_rule(f: Option<&JsonValue>) -> (r: Result<Option<BranchProtectionRule>, DecodeError>)
    ensures
        match r {
            Ok(o) => sd_opt_branch_protection_rule(fmodel(f)) == Ok::<Option<BranchProtectionRuleModel>, DecodeErrorModel>(
                opt_branch_protection_rule_model(o),
            ),
            Err(e) => sd_opt_branch_protection_rule(fmodel(f)) == Err::<Option<BranchProtectionRuleModel>, DecodeErrorModel>(
                err_model(e),
            ),
        },
{
    match f {
        Option::None => Ok(None),
        Option::Some(JsonValue::Null) => Ok(None),
        Option::Some(v) => match dec_branch_protection_rule(v) {
            Ok(x) => Ok(Some(x)),
            Err(e) => Err(e),
        },
    }
}

/// The rendering of a `BranchProtectionRule` record, members in schema order.
pub open spec fn se_branch_protection_rule(x: BranchProtectionRuleModel) -> JsonModel {
    JsonModel::Obj(seq![
        ("admin_enforced"@, se_bool(x.admin_enforced)),
        ("allow_deletions_enforcement_level"@, se_string(x.allow_deletions_enforcement_level)),
        ("authorized_actor_names"@, se_vec_string(x.authorized_actor_names)),
        ("authorized_actors_only"@, se_bool(x.authorized_actors_only)),
        ("authorized_dismissal_actors_only"@, se_bool(x.authorized_dismissal_actors_only)),
        ("create_protected"@, se_bool(x.create_protected)),
        ("created_at"@, se_string(x.created_at)),
        ("dismiss_stale_reviews_on_push"@, se_bool(x.dismiss_stale_reviews_on_push)),
        ("id"@, se_i64(x.id)),
        ("ignore_approvals_from_contributors"@, se_bool(x.ignore_approvals_from_contributors)),
        ("linear_history_requirement_enforcement_level"@, se_enforcement_level(x.linear_history_requirement_enforcement_level)),
        ("merge_queue_enforcement_level"@, se_enforcement_level(x.merge_queue_enforcement_level)),
        ("name"@, se_string(x.name)),
        ("pull_request_revies_enforcement_level"@, se_enforcement_level(x.pull_request_revies_enforcement_level)),
        ("repository_id"@, se_i64(x.repository_id)),
        ("require_code_owner_review"@, se_bool(x.require_code_owner_review)),
        ("required_approving_review_count"@, se_i64(x.required_approving_review_count)),
        ("required_conversation_resolution_level"@, se_enforcement_level(x.required_conversation_resolution_level)),
        ("required_deployments_enforcement_level"@, se_enforcement_level(x.required_deployments_enforcement_level)),
        ("required_status_checks"@, se_vec_string(x.required_status_checks)),
        ("required_status_checks_enforcement_level"@, se_enforcement_level(x.required_status_checks_enforcement_level)),
        ("signature_requirement_enforcement_level"@, se_enforcement_level(x.signature_requirement_enforcement_level)),
        ("strict_required_status_checks_policy"@, se_bool(x.strict_required_status_checks_policy)),
        ("updated_at"@, se_string(x.updated_at)),
    ])
}

/// Render a `BranchProtectionRule` record.
#[verifier::rlimit(100)]
fn enc_branch_protection_rule(x: &BranchProtectionRule) -> (r: JsonValue)
    ensures
        jv_model(r) == se_branch_protection_rule(branch_protection_rule_model(*x)),
{
    broadcast use lemma_jv_model_obj;

    let mut ms: Vec<(Vec<char>, JsonValue)> = Vec::new();
    ms.push((str_to_chars("admin_enforced"), JsonValue::Bool(x.admin_enforced)));
    ms.push((str_to_chars("allow_deletions_enforcement_level"), enc_string(&x.allow_deletions_enforcement_level)));
    ms.push((str_to_chars("authorized_actor_names"), enc_vec_string(&x.authorized_actor_names)));
    ms.push((str_to_chars("authorized_actors_only"), JsonValue::Bool(x.authorized_actors_only)));
    ms.push((str_to_chars("authorized_dismissal_actors_only"), JsonValue::Bool(x.authorized_dismissal_actors_only)));
    ms.push((str_to_chars("create_protected"), JsonValue::Bool(x.create_protected)));
    ms.push((str_to_chars("created_at"), enc_string(&x.created_at)));
    ms.push((str_to_chars("dismiss_stale_reviews_on_push"), JsonValue::Bool(x.dismiss_stale_reviews_on_push)));
    ms.push((str_to_chars("id"), enc_i64(x.id)));
    ms.push((str_to_chars("ignore_approvals_from_contributors"), JsonValue::Bool(x.ignore_approvals_from_contributors)));
    ms.push((str_to_chars("linear_history_requirement_enforcement_level"), enc_enforcement_level(&x.linear_history_requirement_enforcement_level)));
    ms.push((str_to_chars("merge_queue_enforcement_level"), enc_enforcement_level(&x.merge_queue_enforcement_level)));
    ms.push((str_to_chars("name"), enc_string(&x.name)));
    ms.push((str_to_chars("pull_request_revies_enforcement_level"), enc_enforcement_level(&x.pull_request_revies_enforcement_level)));
    ms.push((str_to_chars("repository_id"), enc_i64(x.repository_id)));
    ms.push((str_to_chars("require_code_owner_review"), JsonValue::Bool(x.require_code_owner_review)));
    ms.push((str_to_chars("required_approving_review_count"), enc_i64(x.required_approving_review_count)));
    ms.push((str_to_chars("required_conversation_resolution_level"), enc_enforcement_level(&x.required_conversation_resolution_level)));
    ms.push((str_to_chars("required_deployments_enforcement_level"), enc_enforcement_level(&x.required_deployments_enforcement_level)));
    ms.push((str_to_chars("required_status_checks"), enc_vec_string(&x.required_status_checks)));
    ms.push((str_to_chars("required_status_checks_enforcement_level"), enc_enforcement_level(&x.required_status_checks_enforcement_level)));
    ms.push((str_to_chars("signature_requirement_enforcement_level"), enc_enforcement_level(&x.signature_requirement_enforcement_level)));
    ms.push((str_to_chars("strict_required_status_checks_policy"), JsonValue::Bool(x.strict_required_status_checks_policy)));
    ms.push((str_to_chars("updated_at"), enc_string(&x.updated_at)));
    proof {
        assert(members_model(ms@) =~= se_branch_protection_rule(branch_protection_rule_model(*x))->Obj_0);
    }
    JsonValue::Obj(ms)
}

/// The rendering of an optional `BranchProtectionRule` field.
pub open spec fn se_opt_branch_protection_rule(o: Option<BranchProtectionRuleModel>) -> JsonModel {
    match o {
        Option::Some(x) => se_branch_protection_rule(x),
        Option::None => JsonModel::Null,
    }
}

/// Render an optional `BranchProtectionRule` field.
fn enc_opt_branch_protection_rule(o: &Option<BranchProtectionRule>) -> (r: JsonValue)
    ensures
        jv_model(r) == se_opt_branch_protection_rule(opt_branch_protection_rule_model(*o)),
{
    match o {
        Option::Some(x) => enc_branch_protection_rule(x),
        Option::None => JsonValue::Null,
    }
}

/// Decode a required array of `Commit` records.
pub open spec fn sd_commit_list(f: Option<JsonModel>) -> Result<Seq<CommitModel>, DecodeErrorModel> {
    match f {
        Option::None => Err(DecodeErrorModel {
            path: Seq::empty(),
            kind: DecodeErrorKind::MissingField,
        }),
        Option::Some(JsonModel::Arr(es)) => sd_commit_items(es, 0),
        Option::Some(_) => Err(DecodeErrorModel {
            path: Seq::empty(),
            kind: DecodeErrorKind::WrongType,
        }),
    }
}

/// Decode the commits from index `i` on.
pub open spec fn sd_commit_items(es: Seq<JsonModel>, i: int) -> Result<
    Seq<CommitModel>,
    DecodeErrorModel,
>
    decreases es.len() - i,
{
    if i < 0 || i >= es.len() {
        Ok(Seq::empty())
    } else {
        match sd_commit(es[i]) {
            Err(em) => Err(em),
            Ok(c) => match sd_commit_items(es, i + 1) {
                Err(em) => Err(em),
                Ok(rest) => Ok(seq![c] + rest),
            },
        }
    }
}

/// Decode a required array of `Commit` records.
fn dec_commit_list(f: Option<&JsonValue>) -> (r: Result<Vec<Commit>, DecodeError>)
    ensures
        match r {
            Ok(cs) => sd_commit_list(fmodel(f)) == Ok::<Seq<CommitModel>, DecodeErrorModel>(
                commit_seq_model(cs@),
            ),
            Err(e) => sd_commit_list(fmodel(f)) == Err::<Seq<CommitModel>, DecodeErrorModel>(
                err_model(e),
            ),
        },
{
    broadcast use lemma_jv_model_arr;

    match f {
        Option::None => Err(err_root(DecodeErrorKind::MissingField)),
        Option::Some(JsonValue::Arr(es)) => {
            proof {
                assert(fmodel(f) == Some(JsonModel::Arr(models_of(es@))));
            }
            let mut out: Vec<Commit> = Vec::new();
            let mut i: usize = 0;
            proof {
                if let Ok(rest) = sd_commit_items(models_of(es@), 0) {
                    assert(commit_seq_model(out@) =~= Seq::<CommitModel>::empty());
                    assert(commit_seq_model(out@) + rest =~= rest);
                }
            }
            while i < es.len()
                invariant
                    i <= es@.len(),
                    out@.len() == i,
                    fmodel(f) == Some(JsonModel::Arr(models_of(es@))),
                    match sd_commit_items(models_of(es@), i as int) {
                        Ok(rest) => sd_commit_items(models_of(es@), 0) == Ok::<
                            Seq<CommitModel>,
                            DecodeErrorModel,
                        >(commit_seq_model(out@) + rest),
                        Err(em) => sd_commit_items(models_of(es@), 0) == Err::<
                            Seq<CommitModel>,
                            DecodeErrorModel,
                        >(em),
                    },
                decreases es@.len() - i,
            {
                proof {
                    assert(models_of(es@)[i as int] == jv_model(es@[i as int]));
                }
                match dec_commit(&es[i]) {
                    Ok(c) => {
                        let ghost prev = commit_seq_model(out@);
                        let ghost cm = commit_model(c);
                        out.push(c);
                        proof {
                            assert(commit_seq_model(out@) =~= prev.push(cm));
                            if let Ok(rest) = sd_commit_items(models_of(es@), i + 1) {
                                assert(prev + (seq![cm] + rest) =~= commit_seq_model(out@) + rest);
                            }
                        }
                    },
                    Err(e) => {
                        return Err(e);
                    },
                }
                i = i + 1;
            }
            proof {
                assert(commit_seq_model(out@) + Seq::<CommitModel>::empty() =~= commit_seq_model(
                    out@,
                ));
            }
            Ok(out)
        },
        Option::Some(_) => Err(err_root(DecodeErrorKind::WrongType)),
    }
}

/// The rendering of an array of `Commit` records.
pub open spec fn se_commit_list(cs: Seq<CommitModel>) -> JsonModel {
    JsonModel::Arr(Seq::new(cs.len(), |i: int| se_commit(cs[i])))
}

/// Render an array of `Commit` records.
fn enc_commit_list(v: &Vec<Commit>) -> (r: JsonValue)
    ensures
        jv_model(r) == se_commit_list(commit_seq_model(v@)),
{
    broadcast use lemma_jv_model_arr;

    let mut out: Vec<JsonValue> = Vec::new();
    let mut i: usize = 0;
    while i < v.len()
        invariant
            i <= v@.len(),
            models_of(out@) =~= Seq::new(i as nat, |j: int| se_commit(commit_seq_model(v@)[j])),
        decreases v@.len() - i,
    {
        let ghost prev = models_of(out@);
        let piece = enc_commit(&v[i]);
        out.push(piece);
        proof {
            assert(models_of(out@) =~= prev.push(se_commit(commit_model(v@[i as int]))));
            assert(commit_seq_model(v@)[i as int] == commit_model(v@[i as int]));
            assert(models_of(out@) =~= Seq::new(
                (i + 1) as nat,
                |j: int| se_commit(commit_seq_model(v@)[j]),
            ));
        }
        i = i + 1;
    }
    proof {
        assert(models_of(out@) =~= Seq::new(
            commit_seq_model(v@).len(),
            |j: int| se_commit(commit_seq_model(v@)[j]),
        ));
    }
    JsonValue::Arr(out)
}

/// The name-only projection of an event: its kind, without any payload.
#[derive(Clone, Copy, Debug, PartialEq, Eq, Hash, Structural)]
pub enum EventKind {
    BranchProtectionRule,
    CheckRun,
    CheckSuite,
    CodeScanningAlert,
    CommitComment,
    Create,
    Delete,
    DependabotAlert,
    DeployKey,
    Deployment,
    DeploymentStatus,
    Discussion,
    DiscussionComment,
    Fork,
    GithubAppAuthorization,
    Gollum,
    Installation,
    InstallationRepositories,
    InstallationTarget,
    IssueComment,
    Issues,
    Label,
    MarketplacePurchase,
    Member,
    Membership,
    MergeGroup,
    Meta,
    Milestone,
    OrgBlock,
    Organization,
    Package,
    PageBuild,
    Ping,
    ProjectCard,
    Project,
    ProjectColumn,
    ProjectsV2,
    ProjectsV2Item,
    Public,
    PullRequest,
    PullRequestReviewComments,
    PullRequestReview,
    PullRequestReviewThread,
    Push,
    RegistryPackage,
    Release,
    Repository,
    RepositoryDispatch,
    RepositoryImport,
    RepositoryVulnerabilityAlert,
    SecretScanningAlert,
    SecretScanningAlertLocation,
    SecretAdvisory,
    SecurityAndAnalysis,
    Sponsorship,
    Star,
    Status,
    TeamAdd,
    Team,
    Watch,
    WorkflowDispatch,
    WorkflowJob,
    WorkflowRun,
}

/// The wire name of an event kind.
pub open spec fn kind_name(k: EventKind) -> Seq<char> {
    match k {
        EventKind::BranchProtectionRule => "branch_protection_rule"@,
        EventKind::CheckRun => "check_run"@,
        EventKind::CheckSuite => "check_suite"@,
        EventKind::CodeScanningAlert => "code_scanning_alert"@,
        EventKind::CommitComment => "commit_comment"@,
        EventKind::Create => "create"@,
        EventKind::Delete => "delete"@,
        EventKind::DependabotAlert => "dependabot_alert"@,
        EventKind::DeployKey => "deploy_key"@,
        EventKind::Deployment => "deployment"@,
        EventKind::DeploymentStatus => "deployment_status"@,
        EventKind::Discussion => "discussion"@,
        EventKind::DiscussionComment => "discussion_comment"@,
        EventKind::Fork => "fork"@,
        EventKind::GithubAppAuthorization => "github_app_authorization"@,
        EventKind::Gollum => "gollum"@,
        EventKind::Installation => "installation"@,
        EventKind::InstallationRepositories => "installation_repositories"@,
        EventKind::InstallationTarget => "installation_target"@,
        EventKind::IssueComment => "issue_comment"@,
        EventKind::Issues => "issues"@,
        EventKind::Label => "label"@,
        EventKind::MarketplacePurchase => "marketplace_purchase"@,
        EventKind::Member => "member"@,
        EventKind::Membership => "membership"@,
        EventKind::MergeGroup => "merge_group"@,
        EventKind::Meta => "meta"@,
        EventKind::Milestone => "milestone"@,
        EventKind::OrgBlock => "org_block"@,
        EventKind::Organization => "organization"@,
        EventKind::Package => "package"@,
        EventKind::PageBuild => "page_build"@,
        EventKind::Ping => "ping"@,
        EventKind::ProjectCard => "project_card"@,
        EventKind::Project => "project"@,
        EventKind::ProjectColumn => "project_column"@,
        EventKind::ProjectsV2 => "projects_v2"@,
        EventKind::ProjectsV2Item => "projects_v2_item"@,
        EventKind::Public => "public"@,
        EventKind::PullRequest => "pull_request"@,
        EventKind::PullRequestReviewComments => "pull_request_review_comments"@,
        EventKind::PullRequestReview => "pull_request_review"@,
        EventKind::PullRequestReviewThread => "pull_request_review_thread"@,
        EventKind::Push => "push"@,
        EventKind::RegistryPackage => "registry_package"@,
        EventKind::Release => "release"@,
        EventKind::Repository => "repository"@,
        EventKind::RepositoryDispatch => "repository_dispatch"@,
        EventKind::RepositoryImport => "repository_import"@,
        EventKind::RepositoryVulnerabilityAlert => "repository_vulnerability_alert"@,
        EventKind::SecretScanningAlert => "secret_scanning_alert"@,
        EventKind::SecretScanningAlertLocation => "secret_scanning_alert_location"@,
        EventKind::SecretAdvisory => "secret_advisory"@,
        EventKind::SecurityAndAnalysis => "security_and_analysis"@,
        EventKind::Sponsorship => "sponsorship"@,
        EventKind::Star => "star"@,
        EventKind::Status => "status"@,
        EventKind::TeamAdd => "team_add"@,
        EventKind::Team => "team"@,
        EventKind::Watch => "watch"@,
        EventKind::WorkflowDispatch => "workflow_dispatch"@,
        EventKind::WorkflowJob => "workflow_job"@,
        EventKind::WorkflowRun => "workflow_run"@,
    }
}

/// The kind a wire name stands for, or `None` for an unknown name.
pub open spec fn spec_kind_from_name(n: Seq<char>) -> Option<EventKind> {
    if n == "branch_protection_rule"@ {
        Some(EventKind::BranchProtectionRule)
    } else if n == "check_run"@ {
        Some(EventKind::CheckRun)
    } else if n == "check_suite"@ {
        Some(EventKind::CheckSuite)
    } else if n == "code_scanning_alert"@ {
        Some(EventKind::CodeScanningAlert)
    } else if n == "commit_comment"@ {
        Some(EventKind::CommitComment)
    } else if n == "create"@ {
        Some(EventKind::Create)
    } else if n == "delete"@ {
        Some(EventKind::Delete)
    } else if n == "dependabot_alert"@ {
        Some(EventKind::DependabotAlert)
    } else if n == "deploy_key"@ {
        Some(EventKind::DeployKey)
    } else if n == "deployment"@ {
        Some(EventKind::Deployment)
    } else if n == "deployment_status"@ {
        Some(EventKind::DeploymentStatus)
    } else if n == "discussion"@ {
        Some(EventKind::Discussion)
    } else if n == "discussion_comment"@ {
        Some(EventKind::DiscussionComment)
    } else if n == "fork"@ {
        Some(EventKind::Fork)
    } else if n == "github_app_authorization"@ {
        Some(EventKind::GithubAppAuthorization)
    } else if n == "gollum"@ {
        Some(EventKind::Gollum)
    } else if n == "installation"@ {
        Some(EventKind::Installation)
    } else if n == "installation_repositories"@ {
        Some(EventKind::InstallationRepositories)
    } else if n == "installation_target"@ {
        Some(EventKind::InstallationTarget)
    } else if n == "issue_comment"@ {
        Some(EventKind::IssueComment)
    } else if n == "issues"@ {
        Some(EventKind::Issues)
    } else if n == "label"@ {
        Some(EventKind::Label)
    } else if n == "marketplace_purchase"@ {
        Some(EventKind::MarketplacePurchase)
    } else if n == "member"@ {
        Some(EventKind::Member)
    } else if n == "membership"@ {
        Some(EventKind::Membership)
    } else if n == "merge_group"@ {
        Some(EventKind::MergeGroup)
    } else if n == "meta"@ {
        Some(EventKind::Meta)
    } else if n == "milestone"@ {
        Some(EventKind::Milestone)
    } else if n == "org_block"@ {
        Some(EventKind::OrgBlock)
    } else if n == "organization"@ {
        Some(EventKind::Organization)
    } else if n == "package"@ {
        Some(EventKind::Package)
    } else if n == "page_build"@ {
        Some(EventKind::PageBuild)
    } else if n == "ping"@ {
        Some(EventKind::Ping)
    } else if n == "project_card"@ {
        Some(EventKind::ProjectCard)
    } else if n == "project"@ {
        Some(EventKind::Project)
    } else if n == "project_column"@ {
        Some(EventKind::ProjectColumn)
    } else if n == "projects_v2"@ {
        Some(EventKind::ProjectsV2)
    } else if n == "projects_v2_item"@ {
        Some(EventKind::ProjectsV2Item)
    } else if n == "public"@ {
        Some(EventKind::Public)
    } else if n == "pull_request"@ {
        Some(EventKind::PullRequest)
    } else if n == "pull_request_review_comments"@ {
        Some(EventKind::PullRequestReviewComments)
    } else if n == "pull_request_review"@ {
        Some(EventKind::PullRequestReview)
    } else if n == "pull_request_review_thread"@ {
        Some(EventKind::PullRequestReviewThread)
    } else if n == "push"@ {
        Some(EventKind::Push)
    } else if n == "registry_package"@ {
        Some(EventKind::RegistryPackage)
    } else if n == "release"@ {
        Some(EventKind::Release)
    } else if n == "repository"@ {
        Some(EventKind::Repository)
    } else if n == "repository_dispatch"@ {
        Some(EventKind::RepositoryDispatch)
    } else if n == "repository_import"@ {
        Some(EventKind::RepositoryImport)
    } else if n == "repository_vulnerability_alert"@ {
        Some(EventKind::RepositoryVulnerabilityAlert)
    } else if n == "secret_scanning_alert"@ {
        Some(EventKind::SecretScanningAlert)
    } else if n == "secret_scanning_alert_location"@ {
        Some(EventKind::SecretScanningAlertLocation)
    } else if n == "secret_advisory"@ {
        Some(EventKind::SecretAdvisory)
    } else if n == "security_and_analysis"@ {
        Some(EventKind::SecurityAndAnalysis)
    } else if n == "sponsorship"@ {
        Some(EventKind::Sponsorship)
    } else if n == "star"@ {
        Some(EventKind::Star)
    } else if n == "status"@ {
        Some(EventKind::Status)
    } else if n == "team_add"@ {
        Some(EventKind::TeamAdd)
    } else if n == "team"@ {
        Some(EventKind::Team)
    } else if n == "watch"@ {
        Some(EventKind::Watch)
    } else if n == "workflow_dispatch"@ {
        Some(EventKind::WorkflowDispatch)
    } else if n == "workflow_job"@ {
        Some(EventKind::WorkflowJob)
    } else if n == "workflow_run"@ {
        Some(EventKind::WorkflowRun)
    } else {
        None
    }
}

/// Parse a wire name into an event kind.
pub fn kind_from_name(name: &str) -> (r: Option<EventKind>)
    ensures
        r == spec_kind_from_name(name@),
{
    let nv = str_to_chars(name);
    if chars_eq_str(nv.as_slice(), "branch_protection_rule") {
        Some(EventKind::BranchProtectionRule)
    } else if chars_eq_str(nv.as_slice(), "check_run") {
        Some(EventKind::CheckRun)
    } else if chars_eq_str(nv.as_slice(), "check_suite") {
        Some(EventKind::CheckSuite)
    } else if chars_eq_str(nv.as_slice(), "code_scanning_alert") {
        Some(EventKind::CodeScanningAlert)
    } else if chars_eq_str(nv.as_slice(), "commit_comment") {
        Some(EventKind::CommitComment)
    } else if chars_eq_str(nv.as_slice(), "create") {
        Some(EventKind::Create)
    } else if chars_eq_str(nv.as_slice(), "delete") {
        Some(EventKind::Delete)
    } else if chars_eq_str(nv.as_slice(), "dependabot_alert") {
        Some(EventKind::DependabotAlert)
    } else if chars_eq_str(nv.as_slice(), "deploy_key") {
        Some(EventKind::DeployKey)
    } else if chars_eq_str(nv.as_slice(), "deployment") {
        Some(EventKind::Deployment)
    } else if chars_eq_str(nv.as_slice(), "deployment_status") {
        Some(EventKind::DeploymentStatus)
    } else if chars_eq_str(nv.as_slice(), "discussion") {
        Some(EventKind::Discussion)
    } else if chars_eq_str(nv.as_slice(), "discussion_comment") {
        Some(EventKind::DiscussionComment)
    } else if chars_eq_str(nv.as_slice(), "fork") {
        Some(EventKind::Fork)
    } else if chars_eq_str(nv.as_slice(), "github_app_authorization") {
        Some(EventKind::GithubAppAuthorization)
    } else if chars_eq_str(nv.as_slice(), "gollum") {
        Some(EventKind::Gollum)
    } else if chars_eq_str(nv.as_slice(), "installation") {
        Some(EventKind::Installation)
    } else if chars_eq_str(nv.as_slice(), "installation_repositories") {
        Some(EventKind::InstallationRepositories)
    } else if chars_eq_str(nv.as_slice(), "installation_target") {
        Some(EventKind::InstallationTarget)
    } else if chars_eq_str(nv.as_slice(), "issue_comment") {
        Some(EventKind::IssueComment)
    } else if chars_eq_str(nv.as_slice(), "issues") {
        Some(EventKind::Issues)
    } else if chars_eq_str(nv.as_slice(), "label") {
        Some(EventKind::Label)
    } else if chars_eq_str(nv.as_slice(), "marketplace_purchase") {
        Some(EventKind::MarketplacePurchase)
    } else if chars_eq_str(nv.as_slice(), "member") {
        Some(EventKind::Member)
    } else if chars_eq_str(nv.as_slice(), "membership") {
        Some(EventKind::Membership)
    } else if chars_eq_str(nv.as_slice(), "merge_group") {
        Some(EventKind::MergeGroup)
    } else if chars_eq_str(nv.as_slice(), "meta") {
        Some(EventKind::Meta)
    } else if chars_eq_str(nv.as_slice(), "milestone") {
        Some(EventKind::Milestone)
    } else if chars_eq_str(nv.as_slice(), "org_block") {
        Some(EventKind::OrgBlock)
    } else if chars_eq_str(nv.as_slice(), "organization") {
        Some(EventKind::Organization)
    } else if chars_eq_str(nv.as_slice(), "package") {
        Some(EventKind::Package)
    } else if chars_eq_str(nv.as_slice(), "page_build") {
        Some(EventKind::PageBuild)
    } else if chars_eq_str(nv.as_slice(), "ping") {
        Some(EventKind::Ping)
    } else if chars_eq_str(nv.as_slice(), "project_card") {
        Some(EventKind::ProjectCard)
    } else if chars_eq_str(nv.as_slice(), "project") {
        Some(EventKind::Project)
    } else if chars_eq_str(nv.as_slice(), "project_column") {
        Some(EventKind::ProjectColumn)
    } else if chars_eq_str(nv.as_slice(), "projects_v2") {
        Some(EventKind::ProjectsV2)
    } else if chars_eq_str(nv.as_slice(), "projects_v2_item") {
        Some(EventKind::ProjectsV2Item)
    } else if chars_eq_str(nv.as_slice(), "public") {
        Some(EventKind::Public)
    } else if chars_eq_str(nv.as_slice(), "pull_request") {
        Some(EventKind::PullRequest)
    } else if chars_eq_str(nv.as_slice(), "pull_request_review_comments") {
        Some(EventKind::PullRequestReviewComments)
    } else if chars_eq_str(nv.as_slice(), "pull_request_review") {
        Some(EventKind::PullRequestReview)
    } else if chars_eq_str(nv.as_slice(), "pull_request_review_thread") {
        Some(EventKind::PullRequestReviewThread)
    } else if chars_eq_str(nv.as_slice(), "push") {
        Some(EventKind::Push)
    } else if chars_eq_str(nv.as_slice(), "registry_package") {
        Some(EventKind::RegistryPackage)
    } else if chars_eq_str(nv.as_slice(), "release") {
        Some(EventKind::Release)
    } else if chars_eq_str(nv.as_slice(), "repository") {
        Some(EventKind::Repository)
    } else if chars_eq_str(nv.as_slice(), "repository_dispatch") {
        Some(EventKind::RepositoryDispatch)
    } else if chars_eq_str(nv.as_slice(), "repository_import") {
        Some(EventKind::RepositoryImport)
    } else if chars_eq_str(nv.as_slice(), "repository_vulnerability_alert") {
        Some(EventKind::RepositoryVulnerabilityAlert)
    } else if chars_eq_str(nv.as_slice(), "secret_scanning_alert") {
        Some(EventKind::SecretScanningAlert)
    } else if chars_eq_str(nv.as_slice(), "secret_scanning_alert_location") {
        Some(EventKind::SecretScanningAlertLocation)
    } else if chars_eq_str(nv.as_slice(), "secret_advisory") {
        Some(EventKind::SecretAdvisory)
    } else if chars_eq_str(nv.as_slice(), "security_and_analysis") {
        Some(EventKind::SecurityAndAnalysis)
    } else if chars_eq_str(nv.as_slice(), "sponsorship") {
        Some(EventKind::Sponsorship)
    } else if chars_eq_str(nv.as_slice(), "star") {
        Some(EventKind::Star)
    } else if chars_eq_str(nv.as_slice(), "status") {
        Some(EventKind::Status)
    } else if chars_eq_str(nv.as_slice(), "team_add") {
        Some(EventKind::TeamAdd)
    } else if chars_eq_str(nv.as_slice(), "team") {
        Some(EventKind::Team)
    } else if chars_eq_str(nv.as_slice(), "watch") {
        Some(EventKind::Watch)
    } else if chars_eq_str(nv.as_slice(), "workflow_dispatch") {
        Some(EventKind::WorkflowDispatch)
    } else if chars_eq_str(nv.as_slice(), "workflow_job") {
        Some(EventKind::WorkflowJob)
    } else if chars_eq_str(nv.as_slice(), "workflow_run") {
        Some(EventKind::WorkflowRun)
    } else {
        None
    }
}

/// The wire name of an event kind.
pub fn kind_name_string(k: EventKind) -> (r: String)
    ensures
        r@ == kind_name(k),
{
    match k {
        EventKind::BranchProtectionRule => String::from_str("branch_protection_rule"),
        EventKind::CheckRun => String::from_str("check_run"),
        EventKind::CheckSuite => String::from_str("check_suite"),
        EventKind::CodeScanningAlert => String::from_str("code_scanning_alert"),
        EventKind::CommitComment => String::from_str("commit_comment"),
        EventKind::Create => String::from_str("create"),
        EventKind::Delete => String::from_str("delete"),
        EventKind::DependabotAlert => String::from_str("dependabot_alert"),
        EventKind::DeployKey => String::from_str("deploy_key"),
        EventKind::Deployment => String::from_str("deployment"),
        EventKind::DeploymentStatus => String::from_str("deployment_status"),
        EventKind::Discussion => String::from_str("discussion"),
        EventKind::DiscussionComment => String::from_str("discussion_comment"),
        EventKind::Fork => String::from_str("fork"),
        EventKind::GithubAppAuthorization => String::from_str("github_app_authorization"),
        EventKind::Gollum => String::from_str("gollum"),
        EventKind::Installation => String::from_str("installation"),
        EventKind::InstallationRepositories => String::from_str("installation_repositories"),
        EventKind::InstallationTarget => String::from_str("installation_target"),
        EventKind::IssueComment => String::from_str("issue_comment"),
        EventKind::Issues => String::from_str("issues"),
        EventKind::Label => String::from_str("label"),
        EventKind::MarketplacePurchase => String::from_str("marketplace_purchase"),
        EventKind::Member => String::from_str("member"),
        EventKind::Membership => String::from_str("membership"),
        EventKind::MergeGroup => String::from_str("merge_group"),
        EventKind::Meta => String::from_str("meta"),
        EventKind::Milestone => String::from_str("milestone"),
        EventKind::OrgBlock => String::from_str("org_block"),
        EventKind::Organization => String::from_str("organization"),
        EventKind::Package => String::from_str("package"),
        EventKind::PageBuild => String::from_str("page_build"),
        EventKind::Ping => String::from_str("ping"),
        EventKind::ProjectCard => String::from_str("project_card"),
        EventKind::Project => String::from_str("project"),
        EventKind::ProjectColumn => String::from_str("project_column"),
        EventKind::ProjectsV2 => String::from_str("projects_v2"),
        EventKind::ProjectsV2Item => String::from_str("projects_v2_item"),
        EventKind::Public => String::from_str("public"),
        EventKind::PullRequest => String::from_str("pull_request"),
        EventKind::PullRequestReviewComments => String::from_str("pull_request_review_comments"),
        EventKind::PullRequestReview => String::from_str("pull_request_review"),
        EventKind::PullRequestReviewThread => String::from_str("pull_request_review_thread"),
        EventKind::Push => String::from_str("push"),
        EventKind::RegistryPackage => String::from_str("registry_package"),
        EventKind::Release => String::from_str("release"),
        EventKind::Repository => String::from_str("repository"),
        EventKind::RepositoryDispatch => String::from_str("repository_dispatch"),
        EventKind::RepositoryImport => String::from_str("repository_import"),
        EventKind::RepositoryVulnerabilityAlert => String::from_str("repository_vulnerability_alert"),
        EventKind::SecretScanningAlert => String::from_str("secret_scanning_alert"),
        EventKind::SecretScanningAlertLocation => String::from_str("secret_scanning_alert_location"),
        EventKind::SecretAdvisory => String::from_str("secret_advisory"),
        EventKind::SecurityAndAnalysis => String::from_str("security_and_analysis"),
        EventKind::Sponsorship => String::from_str("sponsorship"),
        EventKind::Star => String::from_str("star"),
        EventKind::Status => String::from_str("status"),
        EventKind::TeamAdd => String::from_str("team_add"),
        EventKind::Team => String::from_str("team"),
        EventKind::Watch => String::from_str("watch"),
        EventKind::WorkflowDispatch => String::from_str("workflow_dispatch"),
        EventKind::WorkflowJob => String::from_str("workflow_job"),
        EventKind::WorkflowRun => String::from_str("workflow_run"),
    }
}

/// A kind's wire name parses back to the kind.
#[verifier::rlimit(100)]
pub proof fn lemma_kind_name_round_trip(k: EventKind)
    ensures
        spec_kind_from_name(kind_name(k)) == Some(k),
{
    reveal_strlit("branch_protection_rule");
    reveal_strlit("check_run");
    reveal_strlit("check_suite");
    reveal_strlit("code_scanning_alert");
    reveal_strlit("commit_comment");
    reveal_strlit("create");
    reveal_strlit("delete");
    reveal_strlit("dependabot_alert");
    reveal_strlit("deploy_key");
    reveal_strlit("deployment");
    reveal_strlit("deployment_status");
    reveal_strlit("discussion");
    reveal_strlit("discussion_comment");
    reveal_strlit("fork");
    reveal_strlit("github_app_authorization");
    reveal_strlit("gollum");
    reveal_strlit("installation");
    reveal_strlit("installation_repositories");
    reveal_strlit("installation_target");
    reveal_strlit("issue_comment");
    reveal_strlit("issues");
    reveal_strlit("label");
    reveal_strlit("marketplace_purchase");
    reveal_strlit("member");
    reveal_strlit("membership");
    reveal_strlit("merge_group");
    reveal_strlit("meta");
    reveal_strlit("milestone");
    reveal_strlit("org_block");
    reveal_strlit("organization");
    reveal_strlit("package");
    reveal_strlit("page_build");
    reveal_strlit("ping");
    reveal_strlit("project_card");
    reveal_strlit("project");
    reveal_strlit("project_column");
    reveal_strlit("projects_v2");
    reveal_strlit("projects_v2_item");
    reveal_strlit("public");
    reveal_strlit("pull_request");
    reveal_strlit("pull_request_review_comments");
    reveal_strlit("pull_request_review");
    reveal_strlit("pull_request_review_thread");
    reveal_strlit("push");
    reveal_strlit("registry_package");
    reveal_strlit("release");
    reveal_strlit("repository");
    reveal_strlit("repository_dispatch");
    reveal_strlit("repository_import");
    reveal_strlit("repository_vulnerability_alert");
    reveal_strlit("secret_scanning_alert");
    reveal_strlit("secret_scanning_alert_location");
    reveal_strlit("secret_advisory");
    reveal_strlit("security_and_analysis");
    reveal_strlit("sponsorship");
    reveal_strlit("star");
    reveal_strlit("status");
    reveal_strlit("team_add");
    reveal_strlit("team");
    reveal_strlit("watch");
    reveal_strlit("workflow_dispatch");
    reveal_strlit("workflow_job");
    reveal_strlit("workflow_run");
    assert("branch_protection_rule"@.len() == 22);
    assert("check_run"@.len() == 9);
    assert("check_suite"@.len() == 11);
    assert("code_scanning_alert"@.len() == 19);
    assert("commit_comment"@.len() == 14);
    assert("create"@.len() == 6);
    assert("delete"@.len() == 6);
    assert("dependabot_alert"@.len() == 16);
    assert("deploy_key"@.len() == 10);
    assert("deployment"@.len() == 10);
    assert("deployment_status"@.len() == 17);
    assert("discussion"@.len() == 10);
    assert("discussion_comment"@.len() == 18);
    assert("fork"@.len() == 4);
    assert("github_app_authorization"@.len() == 24);
    assert("gollum"@.len() == 6);
    assert("installation"@.len() == 12);
    assert("installation_repositories"@.len() == 25);
    assert("installation_target"@.len() == 19);
    assert("issue_comment"@.len() == 13);
    assert("issues"@.len() == 6);
    assert("label"@.len() == 5);
    assert("marketplace_purchase"@.len() == 20);
    assert("member"@.len() == 6);
    assert("membership"@.len() == 10);
    assert("merge_group"@.len() == 11);
    assert("meta"@.len() == 4);
    assert("milestone"@.len() == 9);
    assert("org_block"@.len() == 9);
    assert("organization"@.len() == 12);
    assert("package"@.len() == 7);
    assert("page_build"@.len() == 10);
    assert("ping"@.len() == 4);
    assert("project_card"@.len() == 12);
    assert("project"@.len() == 7);
    assert("project_column"@.len() == 14);
    assert("projects_v2"@.len() == 11);
    assert("projects_v2_item"@.len() == 16);
    assert("public"@.len() == 6);
    assert("pull_request"@.len() == 12);
    assert("pull_request_review_comments"@.len() == 28);
    assert("pull_request_review"@.len() == 19);
    assert("pull_request_review_thread"@.len() == 26);
    assert("push"@.len() == 4);
    assert("registry_package"@.len() == 16);
    assert("release"@.len() == 7);
    assert("repository"@.len() == 10);
    assert("repository_dispatch"@.len() == 19);
    assert("repository_import"@.len() == 17);
    assert("repository_vulnerability_alert"@.len() == 30);
    assert("secret_scanning_alert"@.len() == 21);
    assert("secret_scanning_alert_location"@.len() == 30);
    assert("secret_advisory"@.len() == 15);
    assert("security_and_analysis"@.len() == 21);
    assert("sponsorship"@.len() == 11);
    assert("star"@.len() == 4);
    assert("status"@.len() == 6);
    assert("team_add"@.len() == 8);
    assert("team"@.len() == 4);
    assert("watch"@.len() == 5);
    assert("workflow_dispatch"@.len() == 17);
    assert("workflow_job"@.len() == 12);
    assert("workflow_run"@.len() == 12);
    assert("delete"@[0] == 'd');
    assert("create"@[0] == 'c');
    assert("deployment"@[6] == 'm');
    assert("deploy_key"@[6] == '_');
    assert("discussion"@[1] == 'i');
    assert("deploy_key"@[1] == 'e');
    assert("discussion"@[1] == 'i');
    assert("deployment"@[1] == 'e');
    assert("gollum"@[0] == 'g');
    assert("create"@[0] == 'c');
    assert("gollum"@[0] == 'g');
    assert("delete"@[0] == 'd');
    assert("installation_target"@[0] == 'i');
    assert("code_scanning_alert"@[0] == 'c');
    assert("issues"@[0] == 'i');
    assert("create"@[0] == 'c');
    assert("issues"@[0] == 'i');
    assert("delete"@[0] == 'd');
    assert("issues"@[0] == 'i');
    assert("gollum"@[0] == 'g');
    assert("member"@[0] == 'm');
    assert("create"@[0] == 'c');
    assert("member"@[0] == 'm');
    assert("delete"@[0] == 'd');
    assert("member"@[0] == 'm');
    assert("gollum"@[0] == 'g');
    assert("member"@[0] == 'm');
    assert("issues"@[0] == 'i');
    assert("membership"@[0] == 'm');
    assert("deploy_key"@[0] == 'd');
    assert("membership"@[0] == 'm');
    assert("deployment"@[0] == 'd');
    assert("membership"@[0] == 'm');
    assert("discussion"@[0] == 'd');
    assert("merge_group"@[0] == 'm');
    assert("check_suite"@[0] == 'c');
    assert("meta"@[0] == 'm');
    assert("fork"@[0] == 'f');
    assert("milestone"@[0] == 'm');
    assert("check_run"@[0] == 'c');
    assert("org_block"@[0] == 'o');
    assert("check_run"@[0] == 'c');
    assert("org_block"@[0] == 'o');
    assert("milestone"@[0] == 'm');
    assert("organization"@[0] == 'o');
    assert("installation"@[0] == 'i');
    assert("page_build"@[0] == 'p');
    assert("deploy_key"@[0] == 'd');
    assert("page_build"@[0] == 'p');
    assert("deployment"@[0] == 'd');
    assert("page_build"@[0] == 'p');
    assert("discussion"@[0] == 'd');
    assert("page_build"@[0] == 'p');
    assert("membership"@[0] == 'm');
    assert("ping"@[0] == 'p');
    assert("fork"@[0] == 'f');
    assert("ping"@[0] == 'p');
    assert("meta"@[0] == 'm');
    assert("project_card"@[0] == 'p');
    assert("installation"@[0] == 'i');
    assert("project_card"@[0] == 'p');
    assert("organization"@[0] == 'o');
    assert("project"@[1] == 'r');
    assert("package"@[1] == 'a');
    assert("project_column"@[0] == 'p');
    assert("commit_comment"@[0] == 'c');
    assert("projects_v2"@[0] == 'p');
    assert("check_suite"@[0] == 'c');
    assert("projects_v2"@[0] == 'p');
    assert("merge_group"@[0] == 'm');
    assert("projects_v2_item"@[0] == 'p');
    assert("dependabot_alert"@[0] == 'd');
    assert("public"@[0] == 'p');
    assert("create"@[0] == 'c');
    assert("public"@[0] == 'p');
    assert("delete"@[0] == 'd');
    assert("public"@[0] == 'p');
    assert("gollum"@[0] == 'g');
    assert("public"@[0] == 'p');
    assert("issues"@[0] == 'i');
    assert("public"@[0] == 'p');
    assert("member"@[0] == 'm');
    assert("pull_request"@[0] == 'p');
    assert("installation"@[0] == 'i');
    assert("pull_request"@[0] == 'p');
    assert("organization"@[0] == 'o');
    assert("pull_request"@[1] == 'u');
    assert("project_card"@[1] == 'r');
    assert("pull_request_review"@[0] == 'p');
    assert("code_scanning_alert"@[0] == 'c');
    assert("pull_request_review"@[0] == 'p');
    assert("installation_target"@[0] == 'i');
    assert("push"@[0] == 'p');
    assert("fork"@[0] == 'f');
    assert("push"@[0] == 'p');
    assert("meta"@[0] == 'm');
    assert("push"@[1] == 'u');
    assert("ping"@[1] == 'i');
    assert("registry_package"@[0] == 'r');
    assert("dependabot_alert"@[0] == 'd');
    assert("registry_package"@[0] == 'r');
    assert("projects_v2_item"@[0] == 'p');
    assert("release"@[0] == 'r');
    assert("package"@[0] == 'p');
    assert("release"@[0] == 'r');
    assert("project"@[0] == 'p');
    assert("repository"@[0] == 'r');
    assert("deploy_key"@[0] == 'd');
    assert("repository"@[0] == 'r');
    assert("deployment"@[0] == 'd');
    assert("repository"@[0] == 'r');
    assert("discussion"@[0] == 'd');
    assert("repository"@[0] == 'r');
    assert("membership"@[0] == 'm');
    assert("repository"@[0] == 'r');
    assert("page_build"@[0] == 'p');
    assert("repository_dispatch"@[0] == 'r');
    assert("code_scanning_alert"@[0] == 'c');
    assert("repository_dispatch"@[0] == 'r');
    assert("installation_target"@[0] == 'i');
    assert("repository_dispatch"@[0] == 'r');
    assert("pull_request_review"@[0] == 'p');
    assert("repository_import"@[0] == 'r');
    assert("deployment_status"@[0] == 'd');
    assert("secret_scanning_alert_location"@[0] == 's');
    assert("repository_vulnerability_alert"@[0] == 'r');
    assert("security_and_analysis"@[3] == 'u');
    assert("secret_scanning_alert"@[3] == 'r');
    assert("sponsorship"@[0] == 's');
    assert("check_suite"@[0] == 'c');
    assert("sponsorship"@[0] == 's');
    assert("merge_group"@[0] == 'm');
    assert("sponsorship"@[0] == 's');
    assert("projects_v2"@[0] == 'p');
    assert("star"@[0] == 's');
    assert("fork"@[0] == 'f');
    assert("star"@[0] == 's');
    assert("meta"@[0] == 'm');
    assert("star"@[0] == 's');
    assert("ping"@[0] == 'p');
    assert("star"@[0] == 's');
    assert("push"@[0] == 'p');
    assert("status"@[0] == 's');
    assert("create"@[0] == 'c');
    assert("status"@[0] == 's');
    assert("delete"@[0] == 'd');
    assert("status"@[0] == 's');
    assert("gollum"@[0] == 'g');
    assert("status"@[0] == 's');
    assert("issues"@[0] == 'i');
    assert("status"@[0] == 's');
    assert("member"@[0] == 'm');
    assert("status"@[0] == 's');
    assert("public"@[0] == 'p');
    assert("team"@[0] == 't');
    assert("fork"@[0] == 'f');
    assert("team"@[0] == 't');
    assert("meta"@[0] == 'm');
    assert("team"@[0] == 't');
    assert("ping"@[0] == 'p');
    assert("team"@[0] == 't');
    assert("push"@[0] == 'p');
    assert("team"@[0] == 't');
    assert("star"@[0] == 's');
    assert("watch"@[0] == 'w');
    assert("label"@[0] == 'l');
    assert("workflow_dispatch"@[0] == 'w');
    assert("deployment_status"@[0] == 'd');
    assert("workflow_dispatch"@[0] == 'w');
    assert("repository_import"@[0] == 'r');
    assert("workflow_job"@[0] == 'w');
    assert("installation"@[0] == 'i');
    assert("workflow_job"@[0] == 'w');
    assert("organization"@[0] == 'o');
    assert("workflow_job"@[0] == 'w');
    assert("project_card"@[0] == 'p');
    assert("workflow_job"@[0] == 'w');
    assert("pull_request"@[0] == 'p');
    assert("workflow_run"@[0] == 'w');
    assert("installation"@[0] == 'i');
    assert("workflow_run"@[0] == 'w');
    assert("organization"@[0] == 'o');
    assert("workflow_run"@[0] == 'w');
    assert("project_card"@[0] == 'p');
    assert("workflow_run"@[0] == 'w');
    assert("pull_request"@[0] == 'p');
    assert("workflow_run"@[9] == 'r');
    assert("workflow_job"@[9] == 'j');
    match k {
        EventKind::BranchProtectionRule => {
            assert(kind_name(k) == "branch_protection_rule"@);
            assert(spec_kind_from_name("branch_protection_rule"@) == Some(EventKind::BranchProtectionRule));
        },
        EventKind::CheckRun => {
            assert(kind_name(k) == "check_run"@);
            assert(spec_kind_from_name("check_run"@) == Some(EventKind::CheckRun));
        },
        EventKind::CheckSuite => {
            assert(kind_name(k) == "check_suite"@);
            assert(spec_kind_from_name("check_suite"@) == Some(EventKind::CheckSuite));
        },
        EventKind::CodeScanningAlert => {
            assert(kind_name(k) == "code_scanning_alert"@);
            assert(spec_kind_from_name("code_scanning_alert"@) == Some(EventKind::CodeScanningAlert));
        },
        EventKind::CommitComment => {
            assert(kind_name(k) == "commit_comment"@);
            assert(spec_kind_from_name("commit_comment"@) == Some(EventKind::CommitComment));
        },
        EventKind::Create => {
            assert(kind_name(k) == "create"@);
            assert(spec_kind_from_name("create"@) == Some(EventKind::Create));
        },
        EventKind::Delete => {
            assert(kind_name(k) == "delete"@);
            assert(spec_kind_from_name("delete"@) == Some(EventKind::Delete));
        },
        EventKind::DependabotAlert => {
            assert(kind_name(k) == "dependabot_alert"@);
            assert(spec_kind_from_name("dependabot_alert"@) == Some(EventKind::DependabotAlert));
        },
        EventKind::DeployKey => {
            assert(kind_name(k) == "deploy_key"@);
            assert(spec_kind_from_name("deploy_key"@) == Some(EventKind::DeployKey));
        },
        EventKind::Deployment => {
            assert(kind_name(k) == "deployment"@);
            assert(spec_kind_from_name("deployment"@) == Some(EventKind::Deployment));
        },
        EventKind::DeploymentStatus => {
            assert(kind_name(k) == "deployment_status"@);
            assert(spec_kind_from_name("deployment_status"@) == Some(EventKind::DeploymentStatus));
        },
        EventKind::Discussion => {
            assert(kind_name(k) == "discussion"@);
            assert(spec_kind_from_name("discussion"@) == Some(EventKind::Discussion));
        },
        EventKind::DiscussionComment => {
            assert(kind_name(k) == "discussion_comment"@);
            assert(spec_kind_from_name("discussion_comment"@) == Some(EventKind::DiscussionComment));
        },
        EventKind::Fork => {
            assert(kind_name(k) == "fork"@);
            assert(spec_kind_from_name("fork"@) == Some(EventKind::Fork));
        },
        EventKind::GithubAppAuthorization => {
            assert(kind_name(k) == "github_app_authorization"@);
            assert(spec_kind_from_name("github_app_authorization"@) == Some(EventKind::GithubAppAuthorization));
        },
        EventKind::Gollum => {
            assert(kind_name(k) == "gollum"@);
            assert(spec_kind_from_name("gollum"@) == Some(EventKind::Gollum));
        },
        EventKind::Installation => {
            assert(kind_name(k) == "installation"@);
            assert(spec_kind_from_name("installation"@) == Some(EventKind::Installation));
        },
        EventKind::InstallationRepositories => {
            assert(kind_name(k) == "installation_repositories"@);
            assert(spec_kind_from_name("installation_repositories"@) == Some(EventKind::InstallationRepositories));
        },
        EventKind::InstallationTarget => {
            assert(kind_name(k) == "installation_target"@);
            assert(spec_kind_from_name("installation_target"@) == Some(EventKind::InstallationTarget));
        },
        EventKind::IssueComment => {
            assert(kind_name(k) == "issue_comment"@);
            assert(spec_kind_from_name("issue_comment"@) == Some(EventKind::IssueComment));
        },
        EventKind::Issues => {
            assert(kind_name(k) == "issues"@);
            assert(spec_kind_from_name("issues"@) == Some(EventKind::Issues));
        },
        EventKind::Label => {
            assert(kind_name(k) == "label"@);
            assert(spec_kind_from_name("label"@) == Some(EventKind::Label));
        },
        EventKind::MarketplacePurchase => {
            assert(kind_name(k) == "marketplace_purchase"@);
            assert(spec_kind_from_name("marketplace_purchase"@) == Some(EventKind::MarketplacePurchase));
        },
        EventKind::Member => {
            assert(kind_name(k) == "member"@);
            assert(spec_kind_from_name("member"@) == Some(EventKind::Member));
        },
        EventKind::Membership => {
            assert(kind_name(k) == "membership"@);
            assert(spec_kind_from_name("membership"@) == Some(EventKind::Membership));
        },
        EventKind::MergeGroup => {
            assert(kind_name(k) == "merge_group"@);
            assert(spec_kind_from_name("merge_group"@) == Some(EventKind::MergeGroup));
        },
        EventKind::Meta => {
            assert(kind_name(k) == "meta"@);
            assert(spec_kind_from_name("meta"@) == Some(EventKind::Meta));
        },
        EventKind::Milestone => {
            assert(kind_name(k) == "milestone"@);
            assert(spec_kind_from_name("milestone"@) == Some(EventKind::Milestone));
        },
        EventKind::OrgBlock => {
            assert(kind_name(k) == "org_block"@);
            assert(spec_kind_from_name("org_block"@) == Some(EventKind::OrgBlock));
        },
        EventKind::Organization => {
            assert(kind_name(k) == "organization"@);
            assert(spec_kind_from_name("organization"@) == Some(EventKind::Organization));
        },
        EventKind::Package => {
            assert(kind_name(k) == "package"@);
            assert(spec_kind_from_name("package"@) == Some(EventKind::Package));
        },
        EventKind::PageBuild => {
            assert(kind_name(k) == "page_build"@);
            assert(spec_kind_from_name("page_build"@) == Some(EventKind::PageBuild));
        },
        EventKind::Ping => {
            assert(kind_name(k) == "ping"@);
            assert(spec_kind_from_name("ping"@) == Some(EventKind::Ping));
        },
        EventKind::ProjectCard => {
            assert(kind_name(k) == "project_card"@);
            assert(spec_kind_from_name("project_card"@) == Some(EventKind::ProjectCard));
        },
        EventKind::Project => {
            assert(kind_name(k) == "project"@);
            assert(spec_kind_from_name("project"@) == Some(EventKind::Project));
        },
        EventKind::ProjectColumn => {
            assert(kind_name(k) == "project_column"@);
            assert(spec_kind_from_name("project_column"@) == Some(EventKind::ProjectColumn));
        },
        EventKind::ProjectsV2 => {
            assert(kind_name(k) == "projects_v2"@);
            assert(spec_kind_from_name("projects_v2"@) == Some(EventKind::ProjectsV2));
        },
        EventKind::ProjectsV2Item => {
            assert(kind_name(k) == "projects_v2_item"@);
            assert(spec_kind_from_name("projects_v2_item"@) == Some(EventKind::ProjectsV2Item));
        },
        EventKind::Public => {
            assert(kind_name(k) == "public"@);
            assert(spec_kind_from_name("public"@) == Some(EventKind::Public));
        },
        EventKind::PullRequest => {
            assert(kind_name(k) == "pull_request"@);
            assert(spec_kind_from_name("pull_request"@) == Some(EventKind::PullRequest));
        },
        EventKind::PullRequestReviewComments => {
            assert(kind_name(k) == "pull_request_review_comments"@);
            assert(spec_kind_from_name("pull_request_review_comments"@) == Some(EventKind::PullRequestReviewComments));
        },
        EventKind::PullRequestReview => {
            assert(kind_name(k) == "pull_request_review"@);
            assert(spec_kind_from_name("pull_request_review"@) == Some(EventKind::PullRequestReview));
        },
        EventKind::PullRequestReviewThread => {
            assert(kind_name(k) == "pull_request_review_thread"@);
            assert(spec_kind_from_name("pull_request_review_thread"@) == Some(EventKind::PullRequestReviewThread));
        },
        EventKind::Push => {
            assert(kind_name(k) == "push"@);
            assert(spec_kind_from_name("push"@) == Some(EventKind::Push));
        },
        EventKind::RegistryPackage => {
            assert(kind_name(k) == "registry_package"@);
            assert(spec_kind_from_name("registry_package"@) == Some(EventKind::RegistryPackage));
        },
        EventKind::Release => {
            assert(kind_name(k) == "release"@);
            assert(spec_kind_from_name("release"@) == Some(EventKind::Release));
        },
        EventKind::Repository => {
            assert(kind_name(k) == "repository"@);
            assert(spec_kind_from_name("repository"@) == Some(EventKind::Repository));
        },
        EventKind::RepositoryDispatch => {
            assert(kind_name(k) == "repository_dispatch"@);
            assert(spec_kind_from_name("repository_dispatch"@) == Some(EventKind::RepositoryDispatch));
        },
        EventKind::RepositoryImport => {
            assert(kind_name(k) == "repository_import"@);
            assert(spec_kind_from_name("repository_import"@) == Some(EventKind::RepositoryImport));
        },
        EventKind::RepositoryVulnerabilityAlert => {
            assert(kind_name(k) == "repository_vulnerability_alert"@);
            assert(spec_kind_from_name("repository_vulnerability_alert"@) == Some(EventKind::RepositoryVulnerabilityAlert));
        },
        EventKind::SecretScanningAlert => {
            assert(kind_name(k) == "secret_scanning_alert"@);
            assert(spec_kind_from_name("secret_scanning_alert"@) == Some(EventKind::SecretScanningAlert));
        },
        EventKind::SecretScanningAlertLocation => {
            assert(kind_name(k) == "secret_scanning_alert_location"@);
            assert(spec_kind_from_name("secret_scanning_alert_location"@) == Some(EventKind::SecretScanningAlertLocation));
        },
        EventKind::SecretAdvisory => {
            assert(kind_name(k) == "secret_advisory"@);
            assert(spec_kind_from_name("secret_advisory"@) == Some(EventKind::SecretAdvisory));
        },
        EventKind::SecurityAndAnalysis => {
            assert(kind_name(k) == "security_and_analysis"@);
            assert(spec_kind_from_name("security_and_analysis"@) == Some(EventKind::SecurityAndAnalysis));
        },
        EventKind::Sponsorship => {
            assert(kind_name(k) == "sponsorship"@);
            assert(spec_kind_from_name("sponsorship"@) == Some(EventKind::Sponsorship));
        },
        EventKind::Star => {
            assert(kind_name(k) == "star"@);
            assert(spec_kind_from_name("star"@) == Some(EventKind::Star));
        },
        EventKind::Status => {
            assert(kind_name(k) == "status"@);
            assert(spec_kind_from_name("status"@) == Some(EventKind::Status));
        },
        EventKind::TeamAdd => {
            assert(kind_name(k) == "team_add"@);
            assert(spec_kind_from_name("team_add"@) == Some(EventKind::TeamAdd));
        },
        EventKind::Team => {
            assert(kind_name(k) == "team"@);
            assert(spec_kind_from_name("team"@) == Some(EventKind::Team));
        },
        EventKind::Watch => {
            assert(kind_name(k) == "watch"@);
            assert(spec_kind_from_name("watch"@) == Some(EventKind::Watch));
        },
        EventKind::WorkflowDispatch => {
            assert(kind_name(k) == "workflow_dispatch"@);
            assert(spec_kind_from_name("workflow_dispatch"@) == Some(EventKind::WorkflowDispatch));
        },
        EventKind::WorkflowJob => {
            assert(kind_name(k) == "workflow_job"@);
            assert(spec_kind_from_name("workflow_job"@) == Some(EventKind::WorkflowJob));
        },
        EventKind::WorkflowRun => {
            assert(kind_name(k) == "workflow_run"@);
            assert(spec_kind_from_name("workflow_run"@) == Some(EventKind::WorkflowRun));
        },
    }
}

/// A webhook event: the kind picked by the wire name, with the payload
/// decoded into fields for the kinds the server consumes and kept as an
/// opaque document for every other kind.
#[derive(Debug, PartialEq)]
pub enum Event {
    BranchProtectionRule {
        action: String,
        enterprise: Option<JsonValue>,
        repository: Option<JsonValue>,
        installation: Option<JsonValue>,
        organization: Option<JsonValue>,
        rule: BranchProtectionRule,
        sender: JsonValue,
        changes: Option<JsonValue>,
    },
    CheckRun { payload: JsonValue },
    CheckSuite { payload: JsonValue },
    CodeScanningAlert { payload: JsonValue },
    CommitComment { payload: JsonValue },
    Create { payload: JsonValue },
    Delete { payload: JsonValue },
    DependabotAlert { payload: JsonValue },
    DeployKey { payload: JsonValue },
    Deployment { payload: JsonValue },
    DeploymentStatus { payload: JsonValue },
    Discussion { payload: JsonValue },
    DiscussionComment { payload: JsonValue },
    Fork { payload: JsonValue },
    GithubAppAuthorization { payload: JsonValue },
    Gollum { payload: JsonValue },
    Installation { payload: JsonValue },
    InstallationRepositories { payload: JsonValue },
    InstallationTarget { payload: JsonValue },
    IssueComment { payload: JsonValue },
    Issues { payload: JsonValue },
    Label { payload: JsonValue },
    MarketplacePurchase { payload: JsonValue },
    Member { payload: JsonValue },
    Membership { payload: JsonValue },
    MergeGroup { payload: JsonValue },
    Meta { payload: JsonValue },
    Milestone { payload: JsonValue },
    OrgBlock { payload: JsonValue },
    Organization { payload: JsonValue },
    Package { payload: JsonValue },
    PageBuild { payload: JsonValue },
    Ping {
        hook: Option<Hook>,
        hook_id: Option<i64>,
        organization: Option<JsonValue>,
        repository: Option<JsonValue>,
        sender: JsonValue,
        zen: String,
    },
    ProjectCard { payload: JsonValue },
    Project { payload: JsonValue },
    ProjectColumn { payload: JsonValue },
    ProjectsV2 { payload: JsonValue },
    ProjectsV2Item { payload: JsonValue },
    Public { payload: JsonValue },
    PullRequest { payload: JsonValue },
    PullRequestReviewComments { payload: JsonValue },
    PullRequestReview { payload: JsonValue },
    PullRequestReviewThread { payload: JsonValue },
    Push {
        after: String,
        base_ref: Option<String>,
        before: String,
        commits: Vec<Commit>,
        compare: String,
        created: bool,
        deleted: bool,
        enterprise: Option<JsonValue>,
        forced: bool,
        head_commit: HeadCommit,
        installation: Option<JsonValue>,
        organization: Option<JsonValue>,
        pusher: Pusher,
        git_ref: String,
        repository: JsonValue,
        sender: JsonValue,
    },
    RegistryPackage { payload: JsonValue },
    Release { payload: JsonValue },
    Repository { payload: JsonValue },
    RepositoryDispatch { payload: JsonValue },
    RepositoryImport { payload: JsonValue },
    RepositoryVulnerabilityAlert { payload: JsonValue },
    SecretScanningAlert { payload: JsonValue },
    SecretScanningAlertLocation { payload: JsonValue },
    SecretAdvisory { payload: JsonValue },
    SecurityAndAnalysis { payload: JsonValue },
    Sponsorship { payload: JsonValue },
    Star { payload: JsonValue },
    Status { payload: JsonValue },
    TeamAdd { payload: JsonValue },
    Team { payload: JsonValue },
    Watch { payload: JsonValue },
    WorkflowDispatch { payload: JsonValue },
    WorkflowJob { payload: JsonValue },
    WorkflowRun { payload: JsonValue },
}

/// The shape of an event.
pub enum EventModel {
    BranchProtectionRule {
        action: Seq<char>,
        enterprise: Option<JsonModel>,
        repository: Option<JsonModel>,
        installation: Option<JsonModel>,
        organization: Option<JsonModel>,
        rule: BranchProtectionRuleModel,
        sender: JsonModel,
        changes: Option<JsonModel>,
    },
    CheckRun { payload: JsonModel },
    CheckSuite { payload: JsonModel },
    CodeScanningAlert { payload: JsonModel },
    CommitComment { payload: JsonModel },
    Create { payload: JsonModel },
    Delete { payload: JsonModel },
    DependabotAlert { payload: JsonModel },
    DeployKey { payload: JsonModel },
    Deployment { payload: JsonModel },
    DeploymentStatus { payload: JsonModel },
    Discussion { payload: JsonModel },
    DiscussionComment { payload: JsonModel },
    Fork { payload: JsonModel },
    GithubAppAuthorization { payload: JsonModel },
    Gollum { payload: JsonModel },
    Installation { payload: JsonModel },
    InstallationRepositories { payload: JsonModel },
    InstallationTarget { payload: JsonModel },
    IssueComment { payload: JsonModel },
    Issues { payload: JsonModel },
    Label { payload: JsonModel },
    MarketplacePurchase { payload: JsonModel },
    Member { payload: JsonModel },
    Membership { payload: JsonModel },
    MergeGroup { payload: JsonModel },
    Meta { payload: JsonModel },
    Milestone { payload: JsonModel },
    OrgBlock { payload: JsonModel },
    Organization { payload: JsonModel },
    Package { payload: JsonModel },
    PageBuild { payload: JsonModel },
    Ping {
        hook: Option<HookModel>,
        hook_id: Option<i64>,
        organization: Option<JsonModel>,
        repository: Option<JsonModel>,
        sender: JsonModel,
        zen: Seq<char>,
    },
    ProjectCard { payload: JsonModel },
    Project { payload: JsonModel },
    ProjectColumn { payload: JsonModel },
    ProjectsV2 { payload: JsonModel },
    ProjectsV2Item { payload: JsonModel },
    Public { payload: JsonModel },
    PullRequest { payload: JsonModel },
    PullRequestReviewComments { payload: JsonModel },
    PullRequestReview { payload: JsonModel },
    PullRequestReviewThread { payload: JsonModel },
    Push {
        after: Seq<char>,
        base_ref: Option<Seq<char>>,
        before: Seq<char>,
        commits: Seq<CommitModel>,
        compare: Seq<char>,
        created: bool,
        deleted: bool,
        enterprise: Option<JsonModel>,
        forced: bool,
        head_commit: HeadCommitModel,
        installation: Option<JsonModel>,
        organization: Option<JsonModel>,
        pusher: PusherModel,
        git_ref: Seq<char>,
        repository: JsonModel,
        sender: JsonModel,
    },
    RegistryPackage { payload: JsonModel },
    Release { payload: JsonModel },
    Repository { payload: JsonModel },
    RepositoryDispatch { payload: JsonModel },
    RepositoryImport { payload: JsonModel },
    RepositoryVulnerabilityAlert { payload: JsonModel },
    SecretScanningAlert { payload: JsonModel },
    SecretScanningAlertLocation { payload: JsonModel },
    SecretAdvisory { payload: JsonModel },
    SecurityAndAnalysis { payload: JsonModel },
    Sponsorship { payload: JsonModel },
    Star { payload: JsonModel },
    Status { payload: JsonModel },
    TeamAdd { payload: JsonModel },
    Team { payload: JsonModel },
    Watch { payload: JsonModel },
    WorkflowDispatch { payload: JsonModel },
    WorkflowJob { payload: JsonModel },
    WorkflowRun { payload: JsonModel },
}

/// The model of an event.
pub open spec fn event_model(e: Event) -> EventModel {
    match e {
        Event::BranchProtectionRule { action, enterprise, repository, installation, organization, rule, sender, changes } => EventModel::BranchProtectionRule {
            action: action@,
            enterprise: opt_json_model(enterprise),
            repository: opt_json_model(repository),
            installation: opt_json_model(installation),
            organization: opt_json_model(organization),
            rule: branch_protection_rule_model(rule),
            sender: jv_model(sender),
            changes: opt_json_model(changes),
        },
        Event::CheckRun { payload } => EventModel::CheckRun { payload: jv_model(payload) },
        Event::CheckSuite { payload } => EventModel::CheckSuite { payload: jv_model(payload) },
        Event::CodeScanningAlert { payload } => EventModel::CodeScanningAlert { payload: jv_model(payload) },
        Event::CommitComment { payload } => EventModel::CommitComment { payload: jv_model(payload) },
        Event::Create { payload } => EventModel::Create { payload: jv_model(payload) },
        Event::Delete { payload } => EventModel::Delete { payload: jv_model(payload) },
        Event::DependabotAlert { payload } => EventModel::DependabotAlert { payload: jv_model(payload) },
        Event::DeployKey { payload } => EventModel::DeployKey { payload: jv_model(payload) },
        Event::Deployment { payload } => EventModel::Deployment { payload: jv_model(payload) },
        Event::DeploymentStatus { payload } => EventModel::DeploymentStatus { payload: jv_model(payload) },
        Event::Discussion { payload } => EventModel::Discussion { payload: jv_model(payload) },
        Event::DiscussionComment { payload } => EventModel::DiscussionComment { payload: jv_model(payload) },
        Event::Fork { payload } => EventModel::Fork { payload: jv_model(payload) },
        Event::GithubAppAuthorization { payload } => EventModel::GithubAppAuthorization { payload: jv_model(payload) },
        Event::Gollum { payload } => EventModel::Gollum { payload: jv_model(payload) },
        Event::Installation { payload } => EventModel::Installation { payload: jv_model(payload) },
        Event::InstallationRepositories { payload } => EventModel::InstallationRepositories { payload: jv_model(payload) },
        Event::InstallationTarget { payload } => EventModel::InstallationTarget { payload: jv_model(payload) },
        Event::IssueComment { payload } => EventModel::IssueComment { payload: jv_model(payload) },
        Event::Issues { payload } => EventModel::Issues { payload: jv_model(payload) },
        Event::Label { payload } => EventModel::Label { payload: jv_model(payload) },
        Event::MarketplacePurchase { payload } => EventModel::MarketplacePurchase { payload: jv_model(payload) },
        Event::Member { payload } => EventModel::Member { payload: jv_model(payload) },
        Event::Membership { payload } => EventModel::Membership { payload: jv_model(payload) },
        Event::MergeGroup { payload } => EventModel::MergeGroup { payload: jv_model(payload) },
        Event::Meta { payload } => EventModel::Meta { payload: jv_model(payload) },
        Event::Milestone { payload } => EventModel::Milestone { payload: jv_model(payload) },
        Event::OrgBlock { payload } => EventModel::OrgBlock { payload: jv_model(payload) },
        Event::Organization { payload } => EventModel::Organization { payload: jv_model(payload) },
        Event::Package { payload } => EventModel::Package { payload: jv_model(payload) },
        Event::PageBuild { payload } => EventModel::PageBuild { payload: jv_model(payload) },
        Event::Ping { hook, hook_id, organization, repository, sender, zen } => EventModel::Ping {
            hook: opt_hook_model(hook),
            hook_id: hook_id,
            organization: opt_json_model(organization),
            repository: opt_json_model(repository),
            sender: jv_model(sender),
            zen: zen@,
        },
        Event::ProjectCard { payload } => EventModel::ProjectCard { payload: jv_model(payload) },
        Event::Project { payload } => EventModel::Project { payload: jv_model(payload) },
        Event::ProjectColumn { payload } => EventModel::ProjectColumn { payload: jv_model(payload) },
        Event::ProjectsV2 { payload } => EventModel::ProjectsV2 { payload: jv_model(payload) },
        Event::ProjectsV2Item { payload } => EventModel::ProjectsV2Item { payload: jv_model(payload) },
        Event::Public { payload } => EventModel::Public { payload: jv_model(payload) },
        Event::PullRequest { payload } => EventModel::PullRequest { payload: jv_model(payload) },
        Event::PullRequestReviewComments { payload } => EventModel::PullRequestReviewComments { payload: jv_model(payload) },
        Event::PullRequestReview { payload } => EventModel::PullRequestReview { payload: jv_model(payload) },
        Event::PullRequestReviewThread { payload } => EventModel::PullRequestReviewThread { payload: jv_model(payload) },
        Event::Push { after, base_ref, before, commits, compare, created, deleted, enterprise, forced, head_commit, installation, organization, pusher, git_ref, repository, sender } => EventModel::Push {
            after: after@,
            base_ref: base_ref.deep_view(),
            before: before@,
            commits: commit_seq_model(commits@),
            compare: compare@,
            created: created,
            deleted: deleted,
            enterprise: opt_json_model(enterprise),
            forced: forced,
            head_commit: head_commit_model(head_commit),
            installation: opt_json_model(installation),
            organization: opt_json_model(organization),
            pusher: pusher_model(pusher),
            git_ref: git_ref@,
            repository: jv_model(repository),
            sender: jv_model(sender),
        },
        Event::RegistryPackage { payload } => EventModel::RegistryPackage { payload: jv_model(payload) },
        Event::Release { payload } => EventModel::Release { payload: jv_model(payload) },
        Event::Repository { payload } => EventModel::Repository { payload: jv_model(payload) },
        Event::RepositoryDispatch { payload } => EventModel::RepositoryDispatch { payload: jv_model(payload) },
        Event::RepositoryImport { payload } => EventModel::RepositoryImport { payload: jv_model(payload) },
        Event::RepositoryVulnerabilityAlert { payload } => EventModel::RepositoryVulnerabilityAlert { payload: jv_model(payload) },
        Event::SecretScanningAlert { payload } => EventModel::SecretScanningAlert { payload: jv_model(payload) },
        Event::SecretScanningAlertLocation { payload } => EventModel::SecretScanningAlertLocation { payload: jv_model(payload) },
        Event::SecretAdvisory { payload } => EventModel::SecretAdvisory { payload: jv_model(payload) },
        Event::SecurityAndAnalysis { payload } => EventModel::SecurityAndAnalysis { payload: jv_model(payload) },
        Event::Sponsorship { payload } => EventModel::Sponsorship { payload: jv_model(payload) },
        Event::Star { payload } => EventModel::Star { payload: jv_model(payload) },
        Event::Status { payload } => EventModel::Status { payload: jv_model(payload) },
        Event::TeamAdd { payload } => EventModel::TeamAdd { payload: jv_model(payload) },
        Event::Team { payload } => EventModel::Team { payload: jv_model(payload) },
        Event::Watch { payload } => EventModel::Watch { payload: jv_model(payload) },
        Event::WorkflowDispatch { payload } => EventModel::WorkflowDispatch { payload: jv_model(payload) },
        Event::WorkflowJob { payload } => EventModel::WorkflowJob { payload: jv_model(payload) },
        Event::WorkflowRun { payload } => EventModel::WorkflowRun { payload: jv_model(payload) },
    }
}

/// The kind of an event.
pub open spec fn kind_of(e: Event) -> EventKind {
    match e {
        Event::BranchProtectionRule { .. } => EventKind::BranchProtectionRule,
        Event::CheckRun { .. } => EventKind::CheckRun,
        Event::CheckSuite { .. } => EventKind::CheckSuite,
        Event::CodeScanningAlert { .. } => EventKind::CodeScanningAlert,
        Event::CommitComment { .. } => EventKind::CommitComment,
        Event::Create { .. } => EventKind::Create,
        Event::Delete { .. } => EventKind::Delete,
        Event::DependabotAlert { .. } => EventKind::DependabotAlert,
        Event::DeployKey { .. } => EventKind::DeployKey,
        Event::Deployment { .. } => EventKind::Deployment,
        Event::DeploymentStatus { .. } => EventKind::DeploymentStatus,
        Event::Discussion { .. } => EventKind::Discussion,
        Event::DiscussionComment { .. } => EventKind::DiscussionComment,
        Event::Fork { .. } => EventKind::Fork,
        Event::GithubAppAuthorization { .. } => EventKind::GithubAppAuthorization,
        Event::Gollum { .. } => EventKind::Gollum,
        Event::Installation { .. } => EventKind::Installation,
        Event::InstallationRepositories { .. } => EventKind::InstallationRepositories,
        Event::InstallationTarget { .. } => EventKind::InstallationTarget,
        Event::IssueComment { .. } => EventKind::IssueComment,
        Event::Issues { .. } => EventKind::Issues,
        Event::Label { .. } => EventKind::Label,
        Event::MarketplacePurchase { .. } => EventKind::MarketplacePurchase,
        Event::Member { .. } => EventKind::Member,
        Event::Membership { .. } => EventKind::Membership,
        Event::MergeGroup { .. } => EventKind::MergeGroup,
        Event::Meta { .. } => EventKind::Meta,
        Event::Milestone { .. } => EventKind::Milestone,
        Event::OrgBlock { .. } => EventKind::OrgBlock,
        Event::Organization { .. } => EventKind::Organization,
        Event::Package { .. } => EventKind::Package,
        Event::PageBuild { .. } => EventKind::PageBuild,
        Event::Ping { .. } => EventKind::Ping,
        Event::ProjectCard { .. } => EventKind::ProjectCard,
        Event::Project { .. } => EventKind::Project,
        Event::ProjectColumn { .. } => EventKind::ProjectColumn,
        Event::ProjectsV2 { .. } => EventKind::ProjectsV2,
        Event::ProjectsV2Item { .. } => EventKind::ProjectsV2Item,
        Event::Public { .. } => EventKind::Public,
        Event::PullRequest { .. } => EventKind::PullRequest,
        Event::PullRequestReviewComments { .. } => EventKind::PullRequestReviewComments,
        Event::PullRequestReview { .. } => EventKind::PullRequestReview,
        Event::PullRequestReviewThread { .. } => EventKind::PullRequestReviewThread,
        Event::Push { .. } => EventKind::Push,
        Event::RegistryPackage { .. } => EventKind::RegistryPackage,
        Event::Release { .. } => EventKind::Release,
        Event::Repository { .. } => EventKind::Repository,
        Event::RepositoryDispatch { .. } => EventKind::RepositoryDispatch,
        Event::RepositoryImport { .. } => EventKind::RepositoryImport,
        Event::RepositoryVulnerabilityAlert { .. } => EventKind::RepositoryVulnerabilityAlert,
        Event::SecretScanningAlert { .. } => EventKind::SecretScanningAlert,
        Event::SecretScanningAlertLocation { .. } => EventKind::SecretScanningAlertLocation,
        Event::SecretAdvisory { .. } => EventKind::SecretAdvisory,
        Event::SecurityAndAnalysis { .. } => EventKind::SecurityAndAnalysis,
        Event::Sponsorship { .. } => EventKind::Sponsorship,
        Event::Star { .. } => EventKind::Star,
        Event::Status { .. } => EventKind::Status,
        Event::TeamAdd { .. } => EventKind::TeamAdd,
        Event::Team { .. } => EventKind::Team,
        Event::Watch { .. } => EventKind::Watch,
        Event::WorkflowDispatch { .. } => EventKind::WorkflowDispatch,
        Event::WorkflowJob { .. } => EventKind::WorkflowJob,
        Event::WorkflowRun { .. } => EventKind::WorkflowRun,
    }
}

/// The kind of an event model.
pub open spec fn model_kind(em: EventModel) -> EventKind {
    match em {
        EventModel::BranchProtectionRule { .. } => EventKind::BranchProtectionRule,
        EventModel::CheckRun { .. } => EventKind::CheckRun,
        EventModel::CheckSuite { .. } => EventKind::CheckSuite,
        EventModel::CodeScanningAlert { .. } => EventKind::CodeScanningAlert,
        EventModel::CommitComment { .. } => EventKind::CommitComment,
        EventModel::Create { .. } => EventKind::Create,
        EventModel::Delete { .. } => EventKind::Delete,
        EventModel::DependabotAlert { .. } => EventKind::DependabotAlert,
        EventModel::DeployKey { .. } => EventKind::DeployKey,
        EventModel::Deployment { .. } => EventKind::Deployment,
        EventModel::DeploymentStatus { .. } => EventKind::DeploymentStatus,
        EventModel::Discussion { .. } => EventKind::Discussion,
        EventModel::DiscussionComment { .. } => EventKind::DiscussionComment,
        EventModel::Fork { .. } => EventKind::Fork,
        EventModel::GithubAppAuthorization { .. } => EventKind::GithubAppAuthorization,
        EventModel::Gollum { .. } => EventKind::Gollum,
        EventModel::Installation { .. } => EventKind::Installation,
        EventModel::InstallationRepositories { .. } => EventKind::InstallationRepositories,
        EventModel::InstallationTarget { .. } => EventKind::InstallationTarget,
        EventModel::IssueComment { .. } => EventKind::IssueComment,
        EventModel::Issues { .. } => EventKind::Issues,
        EventModel::Label { .. } => EventKind::Label,
        EventModel::MarketplacePurchase { .. } => EventKind::MarketplacePurchase,
        EventModel::Member { .. } => EventKind::Member,
        EventModel::Membership { .. } => EventKind::Membership,
        EventModel::MergeGroup { .. } => EventKind::MergeGroup,
        EventModel::Meta { .. } => EventKind::Meta,
        EventModel::Milestone { .. } => EventKind::Milestone,
        EventModel::OrgBlock { .. } => EventKind::OrgBlock,
        EventModel::Organization { .. } => EventKind::Organization,
        EventModel::Package { .. } => EventKind::Package,
        EventModel::PageBuild { .. } => EventKind::PageBuild,
        EventModel::Ping { .. } => EventKind::Ping,
        EventModel::ProjectCard { .. } => EventKind::ProjectCard,
        EventModel::Project { .. } => EventKind::Project,
        EventModel::ProjectColumn { .. } => EventKind::ProjectColumn,
        EventModel::ProjectsV2 { .. } => EventKind::ProjectsV2,
        EventModel::ProjectsV2Item { .. } => EventKind::ProjectsV2Item,
        EventModel::Public { .. } => EventKind::Public,
        EventModel::PullRequest { .. } => EventKind::PullRequest,
        EventModel::PullRequestReviewComments { .. } => EventKind::PullRequestReviewComments,
        EventModel::PullRequestReview { .. } => EventKind::PullRequestReview,
        EventModel::PullRequestReviewThread { .. } => EventKind::PullRequestReviewThread,
        EventModel::Push { .. } => EventKind::Push,
        EventModel::RegistryPackage { .. } => EventKind::RegistryPackage,
        EventModel::Release { .. } => EventKind::Release,
        EventModel::Repository { .. } => EventKind::Repository,
        EventModel::RepositoryDispatch { .. } => EventKind::RepositoryDispatch,
        EventModel::RepositoryImport { .. } => EventKind::RepositoryImport,
        EventModel::RepositoryVulnerabilityAlert { .. } => EventKind::RepositoryVulnerabilityAlert,
        EventModel::SecretScanningAlert { .. } => EventKind::SecretScanningAlert,
        EventModel::SecretScanningAlertLocation { .. } => EventKind::SecretScanningAlertLocation,
        EventModel::SecretAdvisory { .. } => EventKind::SecretAdvisory,
        EventModel::SecurityAndAnalysis { .. } => EventKind::SecurityAndAnalysis,
        EventModel::Sponsorship { .. } => EventKind::Sponsorship,
        EventModel::Star { .. } => EventKind::Star,
        EventModel::Status { .. } => EventKind::Status,
        EventModel::TeamAdd { .. } => EventKind::TeamAdd,
        EventModel::Team { .. } => EventKind::Team,
        EventModel::Watch { .. } => EventKind::Watch,
        EventModel::WorkflowDispatch { .. } => EventKind::WorkflowDispatch,
        EventModel::WorkflowJob { .. } => EventKind::WorkflowJob,
        EventModel::WorkflowRun { .. } => EventKind::WorkflowRun,
    }
}

/// The kind of an event.
pub fn kind_of_event(e: &Event) -> (r: EventKind)
    ensures
        r == kind_of(*e),
{
    match e {
        Event::BranchProtectionRule { .. } => EventKind::BranchProtectionRule,
        Event::CheckRun { .. } => EventKind::CheckRun,
        Event::CheckSuite { .. } => EventKind::CheckSuite,
        Event::CodeScanningAlert { .. } => EventKind::CodeScanningAlert,
        Event::CommitComment { .. } => EventKind::CommitComment,
        Event::Create { .. } => EventKind::Create,
        Event::Delete { .. } => EventKind::Delete,
        Event::DependabotAlert { .. } => EventKind::DependabotAlert,
        Event::DeployKey { .. } => EventKind::DeployKey,
        Event::Deployment { .. } => EventKind::Deployment,
        Event::DeploymentStatus { .. } => EventKind::DeploymentStatus,
        Event::Discussion { .. } => EventKind::Discussion,
        Event::DiscussionComment { .. } => EventKind::DiscussionComment,
        Event::Fork { .. } => EventKind::Fork,
        Event::GithubAppAuthorization { .. } => EventKind::GithubAppAuthorization,
        Event::Gollum { .. } => EventKind::Gollum,
        Event::Installation { .. } => EventKind::Installation,
        Event::InstallationRepositories { .. } => EventKind::InstallationRepositories,
        Event::InstallationTarget { .. } => EventKind::InstallationTarget,
        Event::IssueComment { .. } => EventKind::IssueComment,
        Event::Issues { .. } => EventKind::Issues,
        Event::Label { .. } => EventKind::Label,
        Event::MarketplacePurchase { .. } => EventKind::MarketplacePurchase,
        Event::Member { .. } => EventKind::Member,
        Event::Membership { .. } => EventKind::Membership,
        Event::MergeGroup { .. } => EventKind::MergeGroup,
        Event::Meta { .. } => EventKind::Meta,
        Event::Milestone { .. } => EventKind::Milestone,
        Event::OrgBlock { .. } => EventKind::OrgBlock,
        Event::Organization { .. } => EventKind::Organization,
        Event::Package { .. } => EventKind::Package,
        Event::PageBuild { .. } => EventKind::PageBuild,
        Event::Ping { .. } => EventKind::Ping,
        Event::ProjectCard { .. } => EventKind::ProjectCard,
        Event::Project { .. } => EventKind::Project,
        Event::ProjectColumn { .. } => EventKind::ProjectColumn,
        Event::ProjectsV2 { .. } => EventKind::ProjectsV2,
        Event::ProjectsV2Item { .. } => EventKind::ProjectsV2Item,
        Event::Public { .. } => EventKind::Public,
        Event::PullRequest { .. } => EventKind::PullRequest,
        Event::PullRequestReviewComments { .. } => EventKind::PullRequestReviewComments,
        Event::PullRequestReview { .. } => EventKind::PullRequestReview,
        Event::PullRequestReviewThread { .. } => EventKind::PullRequestReviewThread,
        Event::Push { .. } => EventKind::Push,
        Event::RegistryPackage { .. } => EventKind::RegistryPackage,
        Event::Release { .. } => EventKind::Release,
        Event::Repository { .. } => EventKind::Repository,
        Event::RepositoryDispatch { .. } => EventKind::RepositoryDispatch,
        Event::RepositoryImport { .. } => EventKind::RepositoryImport,
        Event::RepositoryVulnerabilityAlert { .. } => EventKind::RepositoryVulnerabilityAlert,
        Event::SecretScanningAlert { .. } => EventKind::SecretScanningAlert,
        Event::SecretScanningAlertLocation { .. } => EventKind::SecretScanningAlertLocation,
        Event::SecretAdvisory { .. } => EventKind::SecretAdvisory,
        Event::SecurityAndAnalysis { .. } => EventKind::SecurityAndAnalysis,
        Event::Sponsorship { .. } => EventKind::Sponsorship,
        Event::Star { .. } => EventKind::Star,
        Event::Status { .. } => EventKind::Status,
        Event::TeamAdd { .. } => EventKind::TeamAdd,
        Event::Team { .. } => EventKind::Team,
        Event::Watch { .. } => EventKind::Watch,
        Event::WorkflowDispatch { .. } => EventKind::WorkflowDispatch,
        Event::WorkflowJob { .. } => EventKind::WorkflowJob,
        Event::WorkflowRun { .. } => EventKind::WorkflowRun,
    }
}

impl Default for Event {
    /// The default event is a ping with every field empty.
    fn default() -> (r: Self)
        ensures
            event_model(r) == (EventModel::Ping {
                hook: None,
                hook_id: None,
                organization: None,
                repository: None,
                sender: JsonModel::Null,
                zen: Seq::<char>::empty(),
            }),
    {
        Event::Ping {
            hook: None,
            hook_id: None,
            organization: None,
            repository: None,
            sender: JsonValue::Null,
            zen: String::new(),
        }
    }
}

/// Decode a payload against one kind's schema.
pub open spec fn sd_event_payload(k: EventKind, m: JsonModel) -> Result<EventModel, DecodeErrorModel> {
    match k {
        EventKind::BranchProtectionRule => match m {
            JsonModel::Obj(ms) => {
                match sd_string(field_of(ms, "action"@)) {
                    Err(k) => Err(DecodeErrorModel { path: seq!["branch_protection_rule"@] + seq!["action"@], kind: k }),
                    Ok(f_action) => {
                        match sd_opt_json(field_of(ms, "enterprise"@)) {
                            Err(k) => Err(DecodeErrorModel { path: seq!["branch_protection_rule"@] + seq!["enterprise"@], kind: k }),
                            Ok(f_enterprise) => {
                                match sd_opt_json(field_of(ms, "repository"@)) {
                                    Err(k) => Err(DecodeErrorModel { path: seq!["branch_protection_rule"@] + seq!["repository"@], kind: k }),
                                    Ok(f_repository) => {
                                        match sd_opt_json(field_of(ms, "installation"@)) {
                                            Err(k) => Err(DecodeErrorModel { path: seq!["branch_protection_rule"@] + seq!["installation"@], kind: k }),
                                            Ok(f_installation) => {
                                                match sd_opt_json(field_of(ms, "organization"@)) {
                                                    Err(k) => Err(DecodeErrorModel { path: seq!["branch_protection_rule"@] + seq!["organization"@], kind: k }),
                                                    Ok(f_organization) => {
                                                        match sd_req_branch_protection_rule(field_of(ms, "rule"@)) {
                                                            Err(em) => Err(DecodeErrorModel { path: seq!["branch_protection_rule"@] + (seq!["rule"@] + em.path), kind: em.kind }),
                                                            Ok(f_rule) => {
                                                                match sd_json(field_of(ms, "sender"@)) {
                                                                    Err(k) => Err(DecodeErrorModel { path: seq!["branch_protection_rule"@] + seq!["sender"@], kind: k }),
                                                                    Ok(f_sender) => {
                                                                        match sd_opt_json(field_of(ms, "changes"@)) {
                                                                            Err(k) => Err(DecodeErrorModel { path: seq!["branch_protection_rule"@] + seq!["changes"@], kind: k }),
                                                                            Ok(f_changes) => {
                                                                                Ok(EventModel::BranchProtectionRule { action: f_action, enterprise: f_enterprise, repository: f_repository, installation: f_installation, organization: f_organization, rule: f_rule, sender: f_sender, changes: f_changes })
                                                                            },
                                                                        }
                                                                    },
                                                                }
                                                            },
                                                        }
                                                    },
                                                }
                                            },
                                        }
                                    },
                                }
                            },
                        }
                    },
                }
            },
            _ => Err(DecodeErrorModel { path: seq!["branch_protection_rule"@], kind: DecodeErrorKind::WrongType }),
        },
        EventKind::CheckRun => Ok(EventModel::CheckRun { payload: m }),
        EventKind::CheckSuite => Ok(EventModel::CheckSuite { payload: m }),
        EventKind::CodeScanningAlert => Ok(EventModel::CodeScanningAlert { payload: m }),
        EventKind::CommitComment => Ok(EventModel::CommitComment { payload: m }),
        EventKind::Create => Ok(EventModel::Create { payload: m }),
        EventKind::Delete => Ok(EventModel::Delete { payload: m }),
        EventKind::DependabotAlert => Ok(EventModel::DependabotAlert { payload: m }),
        EventKind::DeployKey => Ok(EventModel::DeployKey { payload: m }),
        EventKind::Deployment => Ok(EventModel::Deployment { payload: m }),
        EventKind::DeploymentStatus => Ok(EventModel::DeploymentStatus { payload: m }),
        EventKind::Discussion => Ok(EventModel::Discussion { payload: m }),
        EventKind::DiscussionComment => Ok(EventModel::DiscussionComment { payload: m }),
        EventKind::Fork => Ok(EventModel::Fork { payload: m }),
        EventKind::GithubAppAuthorization => Ok(EventModel::GithubAppAuthorization { payload: m }),
        EventKind::Gollum => Ok(EventModel::Gollum { payload: m }),
        EventKind::Installation => Ok(EventModel::Installation { payload: m }),
        EventKind::InstallationRepositories => Ok(EventModel::InstallationRepositories { payload: m }),
        EventKind::InstallationTarget => Ok(EventModel::InstallationTarget { payload: m }),
        EventKind::IssueComment => Ok(EventModel::IssueComment { payload: m }),
        EventKind::Issues => Ok(EventModel::Issues { payload: m }),
        EventKind::Label => Ok(EventModel::Label { payload: m }),
        EventKind::MarketplacePurchase => Ok(EventModel::MarketplacePurchase { payload: m }),
        EventKind::Member => Ok(EventModel::Member { payload: m }),
        EventKind::Membership => Ok(EventModel::Membership { payload: m }),
        EventKind::MergeGroup => Ok(EventModel::MergeGroup { payload: m }),
        EventKind::Meta => Ok(EventModel::Meta { payload: m }),
        EventKind::Milestone => Ok(EventModel::Milestone { payload: m }),
        EventKind::OrgBlock => Ok(EventModel::OrgBlock { payload: m }),
        EventKind::Organization => Ok(EventModel::Organization { payload: m }),
        EventKind::Package => Ok(EventModel::Package { payload: m }),
        EventKind::PageBuild => Ok(EventModel::PageBuild { payload: m }),
        EventKind::Ping => match m {
            JsonModel::Obj(ms) => {
                match sd_opt_hook(field_of(ms, "hook"@)) {
                    Err(em) => Err(DecodeErrorModel { path: seq!["ping"@] + (seq!["hook"@] + em.path), kind: em.kind }),
                    Ok(f_hook) => {
                        match sd_opt_i64(field_of(ms, "hook_id"@)) {
                            Err(k) => Err(DecodeErrorModel { path: seq!["ping"@] + seq!["hook_id"@], kind: k }),
                            Ok(f_hook_id) => {
                                match sd_opt_json(field_of(ms, "organization"@)) {
                                    Err(k) => Err(DecodeErrorModel { path: seq!["ping"@] + seq!["organization"@], kind: k }),
                                    Ok(f_organization) => {
                                        match sd_opt_json(field_of(ms, "repository"@)) {
                                            Err(k) => Err(DecodeErrorModel { path: seq!["ping"@] + seq!["repository"@], kind: k }),
                                            Ok(f_repository) => {
                                                match sd_json(field_of(ms, "sender"@)) {
                                                    Err(k) => Err(DecodeErrorModel { path: seq!["ping"@] + seq!["sender"@], kind: k }),
                                                    Ok(f_sender) => {
                                                        match sd_string(field_of(ms, "zen"@)) {
                                                            Err(k) => Err(DecodeErrorModel { path: seq!["ping"@] + seq!["zen"@], kind: k }),
                                                            Ok(f_zen) => {
                                                                Ok(EventModel::Ping { hook: f_hook, hook_id: f_hook_id, organization: f_organization, repository: f_repository, sender: f_sender, zen: f_zen })
                                                            },
                                                        }
                                                    },
                                                }
                                            },
                                        }
                                    },
                                }
                            },
                        }
                    },
                }
            },
            _ => Err(DecodeErrorModel { path: seq!["ping"@], kind: DecodeErrorKind::WrongType }),
        },
        EventKind::ProjectCard => Ok(EventModel::ProjectCard { payload: m }),
        EventKind::Project => Ok(EventModel::Project { payload: m }),
        EventKind::ProjectColumn => Ok(EventModel::ProjectColumn { payload: m }),
        EventKind::ProjectsV2 => Ok(EventModel::ProjectsV2 { payload: m }),
        EventKind::ProjectsV2Item => Ok(EventModel::ProjectsV2Item { payload: m }),
        EventKind::Public => Ok(EventModel::Public { payload: m }),
        EventKind::PullRequest => Ok(EventModel::PullRequest { payload: m }),
        EventKind::PullRequestReviewComments => Ok(EventModel::PullRequestReviewComments { payload: m }),
        EventKind::PullRequestReview => Ok(EventModel::PullRequestReview { payload: m }),
        EventKind::PullRequestReviewThread => Ok(EventModel::PullRequestReviewThread { payload: m }),
        EventKind::Push => match m {
            JsonModel::Obj(ms) => {
                match sd_string(field_of(ms, "after"@)) {
                    Err(k) => Err(DecodeErrorModel { path: seq!["push"@] + seq!["after"@], kind: k }),
                    Ok(f_after) => {
                        match sd_opt_string(field_of(ms, "base_ref"@)) {
                            Err(k) => Err(DecodeErrorModel { path: seq!["push"@] + seq!["base_ref"@], kind: k }),
                            Ok(f_base_ref) => {
                                match sd_string(field_of(ms, "before"@)) {
                                    Err(k) => Err(DecodeErrorModel { path: seq!["push"@] + seq!["before"@], kind: k }),
                                    Ok(f_before) => {
                                        match sd_commit_list(field_of(ms, "commits"@)) {
                                            Err(em) => Err(DecodeErrorModel { path: seq!["push"@] + (seq!["commits"@] + em.path), kind: em.kind }),
                                            Ok(f_commits) => {
                                                match sd_string(field_of(ms, "compare"@)) {
                                                    Err(k) => Err(DecodeErrorModel { path: seq!["push"@] + seq!["compare"@], kind: k }),
                                                    Ok(f_compare) => {
                                                        match sd_bool(field_of(ms, "created"@)) {
                                                            Err(k) => Err(DecodeErrorModel { path: seq!["push"@] + seq!["created"@], kind: k }),
                                                            Ok(f_created) => {
                                                                match sd_bool(field_of(ms, "deleted"@)) {
                                                                    Err(k) => Err(DecodeErrorModel { path: seq!["push"@] + seq!["deleted"@], kind: k }),
                                                                    Ok(f_deleted) => {
                                                                        match sd_opt_json(field_of(ms, "enterprise"@)) {
                                                                            Err(k) => Err(DecodeErrorModel { path: seq!["push"@] + seq!["enterprise"@], kind: k }),
                                                                            Ok(f_enterprise) => {
                                                                                match sd_bool(field_of(ms, "forced"@)) {
                                                                                    Err(k) => Err(DecodeErrorModel { path: seq!["push"@] + seq!["forced"@], kind: k }),
                                                                                    Ok(f_forced) => {
                                                                                        match sd_req_head_commit(field_of(ms, "head_commit"@)) {
                                                                                            Err(em) => Err(DecodeErrorModel { path: seq!["push"@] + (seq!["head_commit"@] + em.path), kind: em.kind }),
                                                                                            Ok(f_head_commit) => {
                                                                                                match sd_opt_json(field_of(ms, "installation"@)) {
                                                                                                    Err(k) => Err(DecodeErrorModel { path: seq!["push"@] + seq!["installation"@], kind: k }),
                                                                                                    Ok(f_installation) => {
                                                                                                        match sd_opt_json(field_of(ms, "organization"@)) {
                                                                                                            Err(k) => Err(DecodeErrorModel { path: seq!["push"@] + seq!["organization"@], kind: k }),
                                                                                                            Ok(f_organization) => {
                                                                                                                match sd_req_pusher(field_of(ms, "pusher"@)) {
                                                                                                                    Err(em) => Err(DecodeErrorModel { path: seq!["push"@] + (seq!["pusher"@] + em.path), kind: em.kind }),
                                                                                                                    Ok(f_pusher) => {
                                                                                                                        match sd_string(field_of(ms, "ref"@)) {
                                                                                                                            Err(k) => Err(DecodeErrorModel { path: seq!["push"@] + seq!["ref"@], kind: k }),
                                                                                                                            Ok(f_git_ref) => {
                                                                                                                                match sd_json(field_of(ms, "repository"@)) {
                                                                                                                                    Err(k) => Err(DecodeErrorModel { path: seq!["push"@] + seq!["repository"@], kind: k }),
                                                                                                                                    Ok(f_repository) => {
                                                                                                                                        match sd_json(field_of(ms, "sender"@)) {
                                                                                                                                            Err(k) => Err(DecodeErrorModel { path: seq!["push"@] + seq!["sender"@], kind: k }),
                                                                                                                                            Ok(f_sender) => {
                                                                                                                                                Ok(EventModel::Push { after: f_after, base_ref: f_base_ref, before: f_before, commits: f_commits, compare: f_compare, created: f_created, deleted: f_deleted, enterprise: f_enterprise, forced: f_forced, head_commit: f_head_commit, installation: f_installation, organization: f_organization, pusher: f_pusher, git_ref: f_git_ref, repository: f_repository, sender: f_sender })
                                                                                                                                            },
                                                                                                                                        }
                                                                                                                                    },
                                                                                                                                }
                                                                                                                            },
                                                                                                                        }
                                                                                                                    },
                                                                                                                }
                                                                                                            },
                                                                                                        }
                                                                                                    },
                                                                                                }
                                                                                            },
                                                                                        }
                                                                                    },
                                                                                }
                                                                            },
                                                                        }
                                                                    },
                                                                }
                                                            },
                                                        }
                                                    },
                                                }
                                            },
                                        }
                                    },
                                }
                            },
                        }
                    },
                }
            },
            _ => Err(DecodeErrorModel { path: seq!["push"@], kind: DecodeErrorKind::WrongType }),
        },
        EventKind::RegistryPackage => Ok(EventModel::RegistryPackage { payload: m }),
        EventKind::Release => Ok(EventModel::Release { payload: m }),
        EventKind::Repository => Ok(EventModel::Repository { payload: m }),
        EventKind::RepositoryDispatch => Ok(EventModel::RepositoryDispatch { payload: m }),
        EventKind::RepositoryImport => Ok(EventModel::RepositoryImport { payload: m }),
        EventKind::RepositoryVulnerabilityAlert => Ok(EventModel::RepositoryVulnerabilityAlert { payload: m }),
        EventKind::SecretScanningAlert => Ok(EventModel::SecretScanningAlert { payload: m }),
        EventKind::SecretScanningAlertLocation => Ok(EventModel::SecretScanningAlertLocation { payload: m }),
        EventKind::SecretAdvisory => Ok(EventModel::SecretAdvisory { payload: m }),
        EventKind::SecurityAndAnalysis => Ok(EventModel::SecurityAndAnalysis { payload: m }),
        EventKind::Sponsorship => Ok(EventModel::Sponsorship { payload: m }),
        EventKind::Star => Ok(EventModel::Star { payload: m }),
        EventKind::Status => Ok(EventModel::Status { payload: m }),
        EventKind::TeamAdd => Ok(EventModel::TeamAdd { payload: m }),
        EventKind::Team => Ok(EventModel::Team { payload: m }),
        EventKind::Watch => Ok(EventModel::Watch { payload: m }),
        EventKind::WorkflowDispatch => Ok(EventModel::WorkflowDispatch { payload: m }),
        EventKind::WorkflowJob => Ok(EventModel::WorkflowJob { payload: m }),
        EventKind::WorkflowRun => Ok(EventModel::WorkflowRun { payload: m }),
    }
}

/// Decode an event from its wire name and payload.
pub open spec fn sd_event(name: Seq<char>, m: JsonModel) -> Result<EventModel, DecodeErrorModel> {
    match spec_kind_from_name(name) {
        Option::None => Err(DecodeErrorModel {
            path: Seq::empty(),
            kind: DecodeErrorKind::UnknownEventName,
        }),
        Option::Some(k) => sd_event_payload(k, m),
    }
}

/// Decode a `branch_protection_rule` payload.
#[verifier::rlimit(100)]
fn dec_event_branch_protection_rule(v: &JsonValue) -> (r: Result<Event, DecodeError>)
    ensures
        match r {
            Ok(e) => sd_event_payload(EventKind::BranchProtectionRule, jv_model(*v)) == Ok::<
                EventModel,
                DecodeErrorModel,
            >(event_model(e)),
            Err(er) => sd_event_payload(EventKind::BranchProtectionRule, jv_model(*v)) == Err::<
                EventModel,
                DecodeErrorModel,
            >(err_model(er)),
        },
{
    broadcast use lemma_jv_model_obj, lemma_jv_model_arr;

    match v {
        JsonValue::Obj(ms) => {
            let f_action = match dec_string(get_field(ms, "action")) {
                Ok(x) => x,
                Err(k) => {
                    return Err(with_segment(err_at("action", k), "branch_protection_rule"));
                },
            };
            let f_enterprise = match dec_opt_json(get_field(ms, "enterprise")) {
                Ok(x) => x,
                Err(k) => {
                    return Err(with_segment(err_at("enterprise", k), "branch_protection_rule"));
                },
            };
            let f_repository = match dec_opt_json(get_field(ms, "repository")) {
                Ok(x) => x,
                Err(k) => {
                    return Err(with_segment(err_at("repository", k), "branch_protection_rule"));
                },
            };
            let f_installation = match dec_opt_json(get_field(ms, "installation")) {
                Ok(x) => x,
                Err(k) => {
                    return Err(with_segment(err_at("installation", k), "branch_protection_rule"));
                },
            };
            let f_organization = match dec_opt_json(get_field(ms, "organization")) {
                Ok(x) => x,
                Err(k) => {
                    return Err(with_segment(err_at("organization", k), "branch_protection_rule"));
                },
            };
            let f_rule = match dec_req_branch_protection_rule(get_field(ms, "rule")) {
                Ok(x) => x,
                Err(e) => {
                    return Err(with_segment(with_segment(e, "rule"), "branch_protection_rule"));
                },
            };
            let f_sender = match dec_json(get_field(ms, "sender")) {
                Ok(x) => x,
                Err(k) => {
                    return Err(with_segment(err_at("sender", k), "branch_protection_rule"));
                },
            };
            let f_changes = match dec_opt_json(get_field(ms, "changes")) {
                Ok(x) => x,
                Err(k) => {
                    return Err(with_segment(err_at("changes", k), "branch_protection_rule"));
                },
            };
            Ok(Event::BranchProtectionRule { action: f_action, enterprise: f_enterprise, repository: f_repository, installation: f_installation, organization: f_organization, rule: f_rule, sender: f_sender, changes: f_changes })
        },
        _ => Err(err_at("branch_protection_rule", DecodeErrorKind::WrongType)),
    }
}

/// Decode a `ping` payload.
#[verifier::rlimit(100)]
fn dec_event_ping(v: &JsonValue) -> (r: Result<Event, DecodeError>)
    ensures
        match r {
            Ok(e) => sd_event_payload(EventKind::Ping, jv_model(*v)) == Ok::<
                EventModel,
                DecodeErrorModel,
            >(event_model(e)),
            Err(er) => sd_event_payload(EventKind::Ping, jv_model(*v)) == Err::<
                EventModel,
                DecodeErrorModel,
            >(err_model(er)),
        },
{
    broadcast use lemma_jv_model_obj, lemma_jv_model_arr;

    match v {
        JsonValue::Obj(ms) => {
            let f_hook = match dec_opt_hook(get_field(ms, "hook")) {
                Ok(x) => x,
                Err(e) => {
                    return Err(with_segment(with_segment(e, "hook"), "ping"));
                },
            };
            let f_hook_id = match dec_opt_i64(get_field(ms, "hook_id")) {
                Ok(x) => x,
                Err(k) => {
                    return Err(with_segment(err_at("hook_id", k), "ping"));
                },
            };
            let f_organization = match dec_opt_json(get_field(ms, "organization")) {
                Ok(x) => x,
                Err(k) => {
                    return Err(with_segment(err_at("organization", k), "ping"));
                },
            };
            let f_repository = match dec_opt_json(get_field(ms, "repository")) {
                Ok(x) => x,
                Err(k) => {
                    return Err(with_segment(err_at("repository", k), "ping"));
                },
            };
            let f_sender = match dec_json(get_field(ms, "sender")) {
                Ok(x) => x,
                Err(k) => {
                    return Err(with_segment(err_at("sender", k), "ping"));
                },
            };
            let f_zen = match dec_string(get_field(ms, "zen")) {
                Ok(x) => x,
                Err(k) => {
                    return Err(with_segment(err_at("zen", k), "ping"));
                },
            };
            Ok(Event::Ping { hook: f_hook, hook_id: f_hook_id, organization: f_organization, repository: f_repository, sender: f_sender, zen: f_zen })
        },
        _ => Err(err_at("ping", DecodeErrorKind::WrongType)),
    }
}

/// Decode a `push` payload.
#[verifier::rlimit(100)]
fn dec_event_push(v: &JsonValue) -> (r: Result<Event, DecodeError>)
    ensures
        match r {
            Ok(e) => sd_event_payload(EventKind::Push, jv_model(*v)) == Ok::<
                EventModel,
                DecodeErrorModel,
            >(event_model(e)),
            Err(er) => sd_event_payload(EventKind::Push, jv_model(*v)) == Err::<
                EventModel,
                DecodeErrorModel,
            >(err_model(er)),
        },
{
    broadcast use lemma_jv_model_obj, lemma_jv_model_arr;

    match v {
        JsonValue::Obj(ms) => {
            let f_after = match dec_string(get_field(ms, "after")) {
                Ok(x) => x,
                Err(k) => {
                    return Err(with_segment(err_at("after", k), "push"));
                },
            };
            let f_base_ref = match dec_opt_string(get_field(ms, "base_ref")) {
                Ok(x) => x,
                Err(k) => {
                    return Err(with_segment(err_at("base_ref", k), "push"));
                },
            };
            let f_before = match dec_string(get_field(ms, "before")) {
                Ok(x) => x,
                Err(k) => {
                    return Err(with_segment(err_at("before", k), "push"));
                },
            };
            let f_commits = match dec_commit_list(get_field(ms, "commits")) {
                Ok(x) => x,
                Err(e) => {
                    return Err(with_segment(with_segment(e, "commits"), "push"));
                },
            };
            let f_compare = match dec_string(get_field(ms, "compare")) {
                Ok(x) => x,
                Err(k) => {
                    return Err(with_segment(err_at("compare", k), "push"));
                },
            };
            let f_created = match dec_bool(get_field(ms, "created")) {
                Ok(x) => x,
                Err(k) => {
                    return Err(with_segment(err_at("created", k), "push"));
                },
            };
            let f_deleted = match dec_bool(get_field(ms, "deleted")) {
                Ok(x) => x,
                Err(k) => {
                    return Err(with_segment(err_at("deleted", k), "push"));
                },
            };
            let f_enterprise = match dec_opt_json(get_field(ms, "enterprise")) {
                Ok(x) => x,
                Err(k) => {
                    return Err(with_segment(err_at("enterprise", k), "push"));
                },
            };
            let f_forced = match dec_bool(get_field(ms, "forced")) {
                Ok(x) => x,
                Err(k) => {
                    return Err(with_segment(err_at("forced", k), "push"));
                },
            };
            let f_head_commit = match dec_req_head_commit(get_field(ms, "head_commit")) {
                Ok(x) => x,
                Err(e) => {
                    return Err(with_segment(with_segment(e, "head_commit"), "push"));
                },
            };
            let f_installation = match dec_opt_json(get_field(ms, "installation")) {
                Ok(x) => x,
                Err(k) => {
                    return Err(with_segment(err_at("installation", k), "push"));
                },
            };
            let f_organization = match dec_opt_json(get_field(ms, "organization")) {
                Ok(x) => x,
                Err(k) => {
                    return Err(with_segment(err_at("organization", k), "push"));
                },
            };
            let f_pusher = match dec_req_pusher(get_field(ms, "pusher")) {
                Ok(x) => x,
                Err(e) => {
                    return Err(with_segment(with_segment(e, "pusher"), "push"));
                },
            };
            let f_git_ref = match dec_string(get_field(ms, "ref")) {
                Ok(x) => x,
                Err(k) => {
                    return Err(with_segment(err_at("ref", k), "push"));
                },
            };
            let f_repository = match dec_json(get_field(ms, "repository")) {
                Ok(x) => x,
                Err(k) => {
                    return Err(with_segment(err_at("repository", k), "push"));
                },
            };
            let f_sender = match dec_json(get_field(ms, "sender")) {
                Ok(x) => x,
                Err(k) => {
                    return Err(with_segment(err_at("sender", k), "push"));
                },
            };
            Ok(Event::Push { after: f_after, base_ref: f_base_ref, before: f_before, commits: f_commits, compare: f_compare, created: f_created, deleted: f_deleted, enterprise: f_enterprise, forced: f_forced, head_commit: f_head_commit, installation: f_installation, organization: f_organization, pusher: f_pusher, git_ref: f_git_ref, repository: f_repository, sender: f_sender })
        },
        _ => Err(err_at("push", DecodeErrorKind::WrongType)),
    }
}

/// Decode an event from its wire name and payload document.
///
/// An unknown name is an error, never a silently substituted event; a known
/// name has its payload held against that kind's schema, and a failure
/// names the path to the first bad field.
#[verifier::rlimit(100)]
pub fn decode_event(name: &str, payload: &JsonValue) -> (r: Result<Event, DecodeError>)
    ensures
        match r {
            Ok(e) => sd_event(name@, jv_model(*payload)) == Ok::<EventModel, DecodeErrorModel>(
                event_model(e),
            ),
            Err(er) => sd_event(name@, jv_model(*payload)) == Err::<EventModel, DecodeErrorModel>(
                err_model(er),
            ),
        },
{
    let k = match kind_from_name(name) {
        Option::Some(k) => k,
        Option::None => {
            return Err(err_root(DecodeErrorKind::UnknownEventName));
        },
    };
    match k {
        EventKind::BranchProtectionRule => dec_event_branch_protection_rule(payload),
        EventKind::CheckRun => Ok(Event::CheckRun { payload: clone_value(payload) }),
        EventKind::CheckSuite => Ok(Event::CheckSuite { payload: clone_value(payload) }),
        EventKind::CodeScanningAlert => Ok(Event::CodeScanningAlert { payload: clone_value(payload) }),
        EventKind::CommitComment => Ok(Event::CommitComment { payload: clone_value(payload) }),
        EventKind::Create => Ok(Event::Create { payload: clone_value(payload) }),
        EventKind::Delete => Ok(Event::Delete { payload: clone_value(payload) }),
        EventKind::DependabotAlert => Ok(Event::DependabotAlert { payload: clone_value(payload) }),
        EventKind::DeployKey => Ok(Event::DeployKey { payload: clone_value(payload) }),
        EventKind::Deployment => Ok(Event::Deployment { payload: clone_value(payload) }),
        EventKind::DeploymentStatus => Ok(Event::DeploymentStatus { payload: clone_value(payload) }),
        EventKind::Discussion => Ok(Event::Discussion { payload: clone_value(payload) }),
        EventKind::DiscussionComment => Ok(Event::DiscussionComment { payload: clone_value(payload) }),
        EventKind::Fork => Ok(Event::Fork { payload: clone_value(payload) }),
        EventKind::GithubAppAuthorization => Ok(Event::GithubAppAuthorization { payload: clone_value(payload) }),
        EventKind::Gollum => Ok(Event::Gollum { payload: clone_value(payload) }),
        EventKind::Installation => Ok(Event::Installation { payload: clone_value(payload) }),
        EventKind::InstallationRepositories => Ok(Event::InstallationRepositories { payload: clone_value(payload) }),
        EventKind::InstallationTarget => Ok(Event::InstallationTarget { payload: clone_value(payload) }),
        EventKind::IssueComment => Ok(Event::IssueComment { payload: clone_value(payload) }),
        EventKind::Issues => Ok(Event::Issues { payload: clone_value(payload) }),
        EventKind::Label => Ok(Event::Label { payload: clone_value(payload) }),
        EventKind::MarketplacePurchase => Ok(Event::MarketplacePurchase { payload: clone_value(payload) }),
        EventKind::Member => Ok(Event::Member { payload: clone_value(payload) }),
        EventKind::Membership => Ok(Event::Membership { payload: clone_value(payload) }),
        EventKind::MergeGroup => Ok(Event::MergeGroup { payload: clone_value(payload) }),
        EventKind::Meta => Ok(Event::Meta { payload: clone_value(payload) }),
        EventKind::Milestone => Ok(Event::Milestone { payload: clone_value(payload) }),
        EventKind::OrgBlock => Ok(Event::OrgBlock { payload: clone_value(payload) }),
        EventKind::Organization => Ok(Event::Organization { payload: clone_value(payload) }),
        EventKind::Package => Ok(Event::Package { payload: clone_value(payload) }),
        EventKind::PageBuild => Ok(Event::PageBuild { payload: clone_value(payload) }),
        EventKind::Ping => dec_event_ping(payload),
        EventKind::ProjectCard => Ok(Event::ProjectCard { payload: clone_value(payload) }),
        EventKind::Project => Ok(Event::Project { payload: clone_value(payload) }),
        EventKind::ProjectColumn => Ok(Event::ProjectColumn { payload: clone_value(payload) }),
        EventKind::ProjectsV2 => Ok(Event::ProjectsV2 { payload: clone_value(payload) }),
        EventKind::ProjectsV2Item => Ok(Event::ProjectsV2Item { payload: clone_value(payload) }),
        EventKind::Public => Ok(Event::Public { payload: clone_value(payload) }),
        EventKind::PullRequest => Ok(Event::PullRequest { payload: clone_value(payload) }),
        EventKind::PullRequestReviewComments => Ok(Event::PullRequestReviewComments { payload: clone_value(payload) }),
        EventKind::PullRequestReview => Ok(Event::PullRequestReview { payload: clone_value(payload) }),
        EventKind::PullRequestReviewThread => Ok(Event::PullRequestReviewThread { payload: clone_value(payload) }),
        EventKind::Push => dec_event_push(payload),
        EventKind::RegistryPackage => Ok(Event::RegistryPackage { payload: clone_value(payload) }),
        EventKind::Release => Ok(Event::Release { payload: clone_value(payload) }),
        EventKind::Repository => Ok(Event::Repository { payload: clone_value(payload) }),
        EventKind::RepositoryDispatch => Ok(Event::RepositoryDispatch { payload: clone_value(payload) }),
        EventKind::RepositoryImport => Ok(Event::RepositoryImport { payload: clone_value(payload) }),
        EventKind::RepositoryVulnerabilityAlert => Ok(Event::RepositoryVulnerabilityAlert { payload: clone_value(payload) }),
        EventKind::SecretScanningAlert => Ok(Event::SecretScanningAlert { payload: clone_value(payload) }),
        EventKind::SecretScanningAlertLocation => Ok(Event::SecretScanningAlertLocation { payload: clone_value(payload) }),
        EventKind::SecretAdvisory => Ok(Event::SecretAdvisory { payload: clone_value(payload) }),
        EventKind::SecurityAndAnalysis => Ok(Event::SecurityAndAnalysis { payload: clone_value(payload) }),
        EventKind::Sponsorship => Ok(Event::Sponsorship { payload: clone_value(payload) }),
        EventKind::Star => Ok(Event::Star { payload: clone_value(payload) }),
        EventKind::Status => Ok(Event::Status { payload: clone_value(payload) }),
        EventKind::TeamAdd => Ok(Event::TeamAdd { payload: clone_value(payload) }),
        EventKind::Team => Ok(Event::Team { payload: clone_value(payload) }),
        EventKind::Watch => Ok(Event::Watch { payload: clone_value(payload) }),
        EventKind::WorkflowDispatch => Ok(Event::WorkflowDispatch { payload: clone_value(payload) }),
        EventKind::WorkflowJob => Ok(Event::WorkflowJob { payload: clone_value(payload) }),
        EventKind::WorkflowRun => Ok(Event::WorkflowRun { payload: clone_value(payload) }),
    }
}

/// The rendering of an event's payload, members in schema order.
pub open spec fn se_event_payload(em: EventModel) -> JsonModel {
    match em {
        EventModel::BranchProtectionRule { action, enterprise, repository, installation, organization, rule, sender, changes } => JsonModel::Obj(seq![
            ("action"@, se_string(action)),
            ("enterprise"@, se_opt_json(enterprise)),
            ("repository"@, se_opt_json(repository)),
            ("installation"@, se_opt_json(installation)),
            ("organization"@, se_opt_json(organization)),
            ("rule"@, se_branch_protection_rule(rule)),
            ("sender"@, se_json(sender)),
            ("changes"@, se_opt_json(changes)),
        ]),
        EventModel::CheckRun { payload } => payload,
        EventModel::CheckSuite { payload } => payload,
        EventModel::CodeScanningAlert { payload } => payload,
        EventModel::CommitComment { payload } => payload,
        EventModel::Create { payload } => payload,
        EventModel::Delete { payload } => payload,
        EventModel::DependabotAlert { payload } => payload,
        EventModel::DeployKey { payload } => payload,
        EventModel::Deployment { payload } => payload,
        EventModel::DeploymentStatus { payload } => payload,
        EventModel::Discussion { payload } => payload,
        EventModel::DiscussionComment { payload } => payload,
        EventModel::Fork { payload } => payload,
        EventModel::GithubAppAuthorization { payload } => payload,
        EventModel::Gollum { payload } => payload,
        EventModel::Installation { payload } => payload,
        EventModel::InstallationRepositories { payload } => payload,
        EventModel::InstallationTarget { payload } => payload,
        EventModel::IssueComment { payload } => payload,
        EventModel::Issues { payload } => payload,
        EventModel::Label { payload } => payload,
        EventModel::MarketplacePurchase { payload } => payload,
        EventModel::Member { payload } => payload,
        EventModel::Membership { payload } => payload,
        EventModel::MergeGroup { payload } => payload,
        EventModel::Meta { payload } => payload,
        EventModel::Milestone { payload } => payload,
        EventModel::OrgBlock { payload } => payload,
        EventModel::Organization { payload } => payload,
        EventModel::Package { payload } => payload,
        EventModel::PageBuild { payload } => payload,
        EventModel::Ping { hook, hook_id, organization, repository, sender, zen } => JsonModel::Obj(seq![
            ("hook"@, se_opt_hook(hook)),
            ("hook_id"@, se_opt_i64(hook_id)),
            ("organization"@, se_opt_json(organization)),
            ("repository"@, se_opt_json(repository)),
            ("sender"@, se_json(sender)),
            ("zen"@, se_string(zen)),
        ]),
        EventModel::ProjectCard { payload } => payload,
        EventModel::Project { payload } => payload,
        EventModel::ProjectColumn { payload } => payload,
        EventModel::ProjectsV2 { payload } => payload,
        EventModel::ProjectsV2Item { payload } => payload,
        EventModel::Public { payload } => payload,
        EventModel::PullRequest { payload } => payload,
        EventModel::PullRequestReviewComments { payload } => payload,
        EventModel::PullRequestReview { payload } => payload,
        EventModel::PullRequestReviewThread { payload } => payload,
        EventModel::Push { after, base_ref, before, commits, compare, created, deleted, enterprise, forced, head_commit, installation, organization, pusher, git_ref, repository, sender } => JsonModel::Obj(seq![
            ("after"@, se_string(after)),
            ("base_ref"@, se_opt_string(base_ref)),
            ("before"@, se_string(before)),
            ("commits"@, se_commit_list(commits)),
            ("compare"@, se_string(compare)),
            ("created"@, se_bool(created)),
            ("deleted"@, se_bool(deleted)),
            ("enterprise"@, se_opt_json(enterprise)),
            ("forced"@, se_bool(forced)),
            ("head_commit"@, se_head_commit(head_commit)),
            ("installation"@, se_opt_json(installation)),
            ("organization"@, se_opt_json(organization)),
            ("pusher"@, se_pusher(pusher)),
            ("ref"@, se_string(git_ref)),
            ("repository"@, se_json(repository)),
            ("sender"@, se_json(sender)),
        ]),
        EventModel::RegistryPackage { payload } => payload,
        EventModel::Release { payload } => payload,
        EventModel::Repository { payload } => payload,
        EventModel::RepositoryDispatch { payload } => payload,
        EventModel::RepositoryImport { payload } => payload,
        EventModel::RepositoryVulnerabilityAlert { payload } => payload,
        EventModel::SecretScanningAlert { payload } => payload,
        EventModel::SecretScanningAlertLocation { payload } => payload,
        EventModel::SecretAdvisory { payload } => payload,
        EventModel::SecurityAndAnalysis { payload } => payload,
        EventModel::Sponsorship { payload } => payload,
        EventModel::Star { payload } => payload,
        EventModel::Status { payload } => payload,
        EventModel::TeamAdd { payload } => payload,
        EventModel::Team { payload } => payload,
        EventModel::Watch { payload } => payload,
        EventModel::WorkflowDispatch { payload } => payload,
        EventModel::WorkflowJob { payload } => payload,
        EventModel::WorkflowRun { payload } => payload,
    }
}

/// Render an event's payload.
#[verifier::rlimit(100)]
fn enc_event_payload(e: &Event) -> (r: JsonValue)
    ensures
        jv_model(r) == se_event_payload(event_model(*e)),
{
    broadcast use lemma_jv_model_obj;

    match e {
        Event::BranchProtectionRule { action, enterprise, repository, installation, organization, rule, sender, changes } => {
            let mut ms: Vec<(Vec<char>, JsonValue)> = Vec::new();
            ms.push((str_to_chars("action"), enc_string(&action)));
            ms.push((str_to_chars("enterprise"), enc_opt_json(&enterprise)));
            ms.push((str_to_chars("repository"), enc_opt_json(&repository)));
            ms.push((str_to_chars("installation"), enc_opt_json(&installation)));
            ms.push((str_to_chars("organization"), enc_opt_json(&organization)));
            ms.push((str_to_chars("rule"), enc_branch_protection_rule(&rule)));
            ms.push((str_to_chars("sender"), clone_value(&sender)));
            ms.push((str_to_chars("changes"), enc_opt_json(&changes)));
            proof {
                assert(members_model(ms@) =~= se_event_payload(event_model(*e))->Obj_0);
            }
            JsonValue::Obj(ms)
        },
        Event::CheckRun { payload } => clone_value(payload),
        Event::CheckSuite { payload } => clone_value(payload),
        Event::CodeScanningAlert { payload } => clone_value(payload),
        Event::CommitComment { payload } => clone_value(payload),
        Event::Create { payload } => clone_value(payload),
        Event::Delete { payload } => clone_value(payload),
        Event::DependabotAlert { payload } => clone_value(payload),
        Event::DeployKey { payload } => clone_value(payload),
        Event::Deployment { payload } => clone_value(payload),
        Event::DeploymentStatus { payload } => clone_value(payload),
        Event::Discussion { payload } => clone_value(payload),
        Event::DiscussionComment { payload } => clone_value(payload),
        Event::Fork { payload } => clone_value(payload),
        Event::GithubAppAuthorization { payload } => clone_value(payload),
        Event::Gollum { payload } => clone_value(payload),
        Event::Installation { payload } => clone_value(payload),
        Event::InstallationRepositories { payload } => clone_value(payload),
        Event::InstallationTarget { payload } => clone_value(payload),
        Event::IssueComment { payload } => clone_value(payload),
        Event::Issues { payload } => clone_value(payload),
        Event::Label { payload } => clone_value(payload),
        Event::MarketplacePurchase { payload } => clone_value(payload),
        Event::Member { payload } => clone_value(payload),
        Event::Membership { payload } => clone_value(payload),
        Event::MergeGroup { payload } => clone_value(payload),
        Event::Meta { payload } => clone_value(payload),
        Event::Milestone { payload } => clone_value(payload),
        Event::OrgBlock { payload } => clone_value(payload),
        Event::Organization { payload } => clone_value(payload),
        Event::Package { payload } => clone_value(payload),
        Event::PageBuild { payload } => clone_value(payload),
        Event::Ping { hook, hook_id, organization, repository, sender, zen } => {
            let mut ms: Vec<(Vec<char>, JsonValue)> = Vec::new();
            ms.push((str_to_chars("hook"), enc_opt_hook(&hook)));
            ms.push((str_to_chars("hook_id"), enc_opt_i64(&hook_id)));
            ms.push((str_to_chars("organization"), enc_opt_json(&organization)));
            ms.push((str_to_chars("repository"), enc_opt_json(&repository)));
            ms.push((str_to_chars("sender"), clone_value(&sender)));
            ms.push((str_to_chars("zen"), enc_string(&zen)));
            proof {
                assert(members_model(ms@) =~= se_event_payload(event_model(*e))->Obj_0);
            }
            JsonValue::Obj(ms)
        },
        Event::ProjectCard { payload } => clone_value(payload),
        Event::Project { payload } => clone_value(payload),
        Event::ProjectColumn { payload } => clone_value(payload),
        Event::ProjectsV2 { payload } => clone_value(payload),
        Event::ProjectsV2Item { payload } => clone_value(payload),
        Event::Public { payload } => clone_value(payload),
        Event::PullRequest { payload } => clone_value(payload),
        Event::PullRequestReviewComments { payload } => clone_value(payload),
        Event::PullRequestReview { payload } => clone_value(payload),
        Event::PullRequestReviewThread { payload } => clone_value(payload),
        Event::Push { after, base_ref, before, commits, compare, created, deleted, enterprise, forced, head_commit, installation, organization, pusher, git_ref, repository, sender } => {
            let mut ms: Vec<(Vec<char>, JsonValue)> = Vec::new();
            ms.push((str_to_chars("after"), enc_string(&after)));
            ms.push((str_to_chars("base_ref"), enc_opt_string(&base_ref)));
            ms.push((str_to_chars("before"), enc_string(&before)));
            ms.push((str_to_chars("commits"), enc_commit_list(&commits)));
            ms.push((str_to_chars("compare"), enc_string(&compare)));
            ms.push((str_to_chars("created"), JsonValue::Bool(*created)));
            ms.push((str_to_chars("deleted"), JsonValue::Bool(*deleted)));
            ms.push((str_to_chars("enterprise"), enc_opt_json(&enterprise)));
            ms.push((str_to_chars("forced"), JsonValue::Bool(*forced)));
            ms.push((str_to_chars("head_commit"), enc_head_commit(&head_commit)));
            ms.push((str_to_chars("installation"), enc_opt_json(&installation)));
            ms.push((str_to_chars("organization"), enc_opt_json(&organization)));
            ms.push((str_to_chars("pusher"), enc_pusher(&pusher)));
            ms.push((str_to_chars("ref"), enc_string(&git_ref)));
            ms.push((str_to_chars("repository"), clone_value(&repository)));
            ms.push((str_to_chars("sender"), clone_value(&sender)));
            proof {
                assert(members_model(ms@) =~= se_event_payload(event_model(*e))->Obj_0);
            }
            JsonValue::Obj(ms)
        },
        Event::RegistryPackage { payload } => clone_value(payload),
        Event::Release { payload } => clone_value(payload),
        Event::Repository { payload } => clone_value(payload),
        Event::RepositoryDispatch { payload } => clone_value(payload),
        Event::RepositoryImport { payload } => clone_value(payload),
        Event::RepositoryVulnerabilityAlert { payload } => clone_value(payload),
        Event::SecretScanningAlert { payload } => clone_value(payload),
        Event::SecretScanningAlertLocation { payload } => clone_value(payload),
        Event::SecretAdvisory { payload } => clone_value(payload),
        Event::SecurityAndAnalysis { payload } => clone_value(payload),
        Event::Sponsorship { payload } => clone_value(payload),
        Event::Star { payload } => clone_value(payload),
        Event::Status { payload } => clone_value(payload),
        Event::TeamAdd { payload } => clone_value(payload),
        Event::Team { payload } => clone_value(payload),
        Event::Watch { payload } => clone_value(payload),
        Event::WorkflowDispatch { payload } => clone_value(payload),
        Event::WorkflowJob { payload } => clone_value(payload),
        Event::WorkflowRun { payload } => clone_value(payload),
    }
}

/// Render an event back to its wire name and payload document.
pub fn encode_event(e: &Event) -> (r: (String, JsonValue))
    ensures
        r.0@ == kind_name(kind_of(*e)),
        jv_model(r.1) == se_event_payload(event_model(*e)),
{
    let name = kind_name_string(kind_of_event(e));
    let payload = enc_event_payload(e);
    (name, payload)
}

/// Decoding the rendering of a string array gives the array back.
proof fn lemma_rt_vec_string(ss: Seq<Seq<char>>)
    ensures
        sd_vec_string(Some(se_vec_string(ss))) == Ok::<Seq<Seq<char>>, DecodeErrorKind>(ss),
{
    let es = se_vec_string(ss)->Arr_0;
    assert(forall|j: int| 0 <= j < es.len() ==> es[j] is Str);
    assert(Seq::new(es.len(), |j: int| es[j]->Str_0) =~= ss);
}

/// Decoding the rendering of a commit list gives the list back.
proof fn lemma_rt_commit_list(cs: Seq<CommitModel>)
    ensures
        sd_commit_list(Some(se_commit_list(cs))) == Ok::<Seq<CommitModel>, DecodeErrorModel>(cs),
{
    let es = se_commit_list(cs)->Arr_0;
    lemma_rt_commit_items(cs, 0);
    assert(cs.skip(0) =~= cs);
}

/// Decoding the rendered commits from index `i` gives the commits from `i`.
proof fn lemma_rt_commit_items(cs: Seq<CommitModel>, i: int)
    requires
        0 <= i <= cs.len(),
    ensures
        sd_commit_items(se_commit_list(cs)->Arr_0, i) == Ok::<Seq<CommitModel>, DecodeErrorModel>(
            cs.skip(i),
        ),
    decreases cs.len() - i,
{
    let es = se_commit_list(cs)->Arr_0;
    if i >= cs.len() {
        assert(cs.skip(i) =~= Seq::<CommitModel>::empty());
    } else {
        lemma_rt_commit(cs[i]);
        lemma_rt_commit_items(cs, i + 1);
        assert(seq![cs[i]] + cs.skip(i + 1) =~= cs.skip(i));
    }
}

/// Decoding the rendering of a `Author` record gives the record back.
#[verifier::rlimit(100)]
proof fn lemma_rt_author(x: AuthorModel)
    ensures
        sd_author(se_author(x)) == Ok::<AuthorModel, DecodeErrorModel>(x),
{
    reveal_strlit("date");
    reveal_strlit("email");
    reveal_strlit("name");
    reveal_strlit("username");
    assert("date"@.len() == 4);
    assert("email"@.len() == 5);
    assert("name"@.len() == 4);
    assert("username"@.len() == 8);
    assert("name"@[0] == 'n');
    assert("date"@[0] == 'd');
    let ms = se_author(x)->Obj_0;
    assert(ms[0].0 == "date"@);
    lemma_field_of_at(ms, "date"@, 0);
    assert(ms[1].0 == "email"@);
    lemma_field_of_at(ms, "email"@, 1);
    assert(ms[2].0 == "name"@);
    lemma_field_of_at(ms, "name"@, 2);
    assert(ms[3].0 == "username"@);
    lemma_field_of_at(ms, "username"@, 3);
}

/// Decoding the rendering of a `Committer` record gives the record back.
#[verifier::rlimit(100)]
proof fn lemma_rt_committer(x: CommitterModel)
    ensures
        sd_committer(se_committer(x)) == Ok::<CommitterModel, DecodeErrorModel>(x),
{
    reveal_strlit("date");
    reveal_strlit("email");
    reveal_strlit("name");
    reveal_strlit("username");
    assert("date"@.len() == 4);
    assert("email"@.len() == 5);
    assert("name"@.len() == 4);
    assert("username"@.len() == 8);
    assert("name"@[0] == 'n');
    assert("date"@[0] == 'd');
    let ms = se_committer(x)->Obj_0;
    assert(ms[0].0 == "date"@);
    lemma_field_of_at(ms, "date"@, 0);
    assert(ms[1].0 == "email"@);
    lemma_field_of_at(ms, "email"@, 1);
    assert(ms[2].0 == "name"@);
    lemma_field_of_at(ms, "name"@, 2);
    assert(ms[3].0 == "username"@);
    lemma_field_of_at(ms, "username"@, 3);
}

/// Decoding the rendering of a `Pusher` record gives the record back.
#[verifier::rlimit(100)]
proof fn lemma_rt_pusher(x: PusherModel)
    ensures
        sd_pusher(se_pusher(x)) == Ok::<PusherModel, DecodeErrorModel>(x),
{
    reveal_strlit("date");
    reveal_strlit("email");
    reveal_strlit("name");
    reveal_strlit("username");
    assert("date"@.len() == 4);
    assert("email"@.len() == 5);
    assert("name"@.len() == 4);
    assert("username"@.len() == 8);
    assert("name"@[0] == 'n');
    assert("date"@[0] == 'd');
    let ms = se_pusher(x)->Obj_0;
    assert(ms[0].0 == "date"@);
    lemma_field_of_at(ms, "date"@, 0);
    assert(ms[1].0 == "email"@);
    lemma_field_of_at(ms, "email"@, 1);
    assert(ms[2].0 == "name"@);
    lemma_field_of_at(ms, "name"@, 2);
    assert(ms[3].0 == "username"@);
    lemma_field_of_at(ms, "username"@, 3);
}

/// Decoding the rendering of a `Commit` record gives the record back.
#[verifier::rlimit(100)]
proof fn lemma_rt_commit(x: CommitModel)
    ensures
        sd_commit(se_commit(x)) == Ok::<CommitModel, DecodeErrorModel>(x),
{
    reveal_strlit("added");
    reveal_strlit("author");
    reveal_strlit("committer");
    reveal_strlit("distinct");
    reveal_strlit("id");
    reveal_strlit("message");
    reveal_strlit("modified");
    reveal_strlit("removed");
    reveal_strlit("timestamp");
    reveal_strlit("tree_id");
    reveal_strlit("url");
    assert("added"@.len() == 5);
    assert("author"@.len() == 6);
    assert("committer"@.len() == 9);
    assert("distinct"@.len() == 8);
    assert("id"@.len() == 2);
    assert("message"@.len() == 7);
    assert("modified"@.len() == 8);
    assert("removed"@.len() == 7);
    assert("timestamp"@.len() == 9);
    assert("tree_id"@.len() == 7);
    assert("url"@.len() == 3);
    assert("modified"@[0] == 'm');
    assert("distinct"@[0] == 'd');
    assert("removed"@[0] == 'r');
    assert("message"@[0] == 'm');
    assert("timestamp"@[0] == 't');
    assert("committer"@[0] == 'c');
    assert("tree_id"@[0] == 't');
    assert("message"@[0] == 'm');
    assert("tree_id"@[0] == 't');
    assert("removed"@[0] == 'r');
    let ms = se_commit(x)->Obj_0;
    assert(ms[0].0 == "added"@);
    lemma_field_of_at(ms, "added"@, 0);
    assert(ms[1].0 == "author"@);
    lemma_field_of_at(ms, "author"@, 1);
    assert(ms[2].0 == "committer"@);
    lemma_field_of_at(ms, "committer"@, 2);
    assert(ms[3].0 == "distinct"@);
    lemma_field_of_at(ms, "distinct"@, 3);
    assert(ms[4].0 == "id"@);
    lemma_field_of_at(ms, "id"@, 4);
    assert(ms[5].0 == "message"@);
    lemma_field_of_at(ms, "message"@, 5);
    assert(ms[6].0 == "modified"@);
    lemma_field_of_at(ms, "modified"@, 6);
    assert(ms[7].0 == "removed"@);
    lemma_field_of_at(ms, "removed"@, 7);
    assert(ms[8].0 == "timestamp"@);
    lemma_field_of_at(ms, "timestamp"@, 8);
    assert(ms[9].0 == "tree_id"@);
    lemma_field_of_at(ms, "tree_id"@, 9);
    assert(ms[10].0 == "url"@);
    lemma_field_of_at(ms, "url"@, 10);
    if let Some(ss) = x.added {
        lemma_rt_vec_string(ss);
        assert(se_vec_string(ss) is Arr);
    }
    lemma_rt_author(x.author);
    lemma_rt_committer(x.committer);
    if let Some(ss) = x.modified {
        lemma_rt_vec_string(ss);
        assert(se_vec_string(ss) is Arr);
    }
    if let Some(ss) = x.removed {
        lemma_rt_vec_string(ss);
        assert(se_vec_string(ss) is Arr);
    }
}

/// Decoding the rendering of a `HeadCommit` record gives the record back.
#[verifier::rlimit(100)]
proof fn lemma_rt_head_commit(x: HeadCommitModel)
    ensures
        sd_head_commit(se_head_commit(x)) == Ok::<HeadCommitModel, DecodeErrorModel>(x),
{
    reveal_strlit("added");
    reveal_strlit("author");
    reveal_strlit("committer");
    reveal_strlit("distinct");
    reveal_strlit("id");
    reveal_strlit("message");
    reveal_strlit("modified");
    reveal_strlit("removed");
    reveal_strlit("timestamp");
    reveal_strlit("tree_id");
    reveal_strlit("url");
    assert("added"@.len() == 5);
    assert("author"@.len() == 6);
    assert("committer"@.len() == 9);
    assert("distinct"@.len() == 8);
    assert("id"@.len() == 2);
    assert("message"@.len() == 7);
    assert("modified"@.len() == 8);
    assert("removed"@.len() == 7);
    assert("timestamp"@.len() == 9);
    assert("tree_id"@.len() == 7);
    assert("url"@.len() == 3);
    assert("modified"@[0] == 'm');
    assert("distinct"@[0] == 'd');
    assert("removed"@[0] == 'r');
    assert("message"@[0] == 'm');
    assert("timestamp"@[0] == 't');
    assert("committer"@[0] == 'c');
    assert("tree_id"@[0] == 't');
    assert("message"@[0] == 'm');
    assert("tree_id"@[0] == 't');
    assert("removed"@[0] == 'r');
    let ms = se_head_commit(x)->Obj_0;
    assert(ms[0].0 == "added"@);
    lemma_field_of_at(ms, "added"@, 0);
    assert(ms[1].0 == "author"@);
    lemma_field_of_at(ms, "author"@, 1);
    assert(ms[2].0 == "committer"@);
    lemma_field_of_at(ms, "committer"@, 2);
    assert(ms[3].0 == "distinct"@);
    lemma_field_of_at(ms, "distinct"@, 3);
    assert(ms[4].0 == "id"@);
    lemma_field_of_at(ms, "id"@, 4);
    assert(ms[5].0 == "message"@);
    lemma_field_of_at(ms, "message"@, 5);
    assert(ms[6].0 == "modified"@);
    lemma_field_of_at(ms, "modified"@, 6);
    assert(ms[7].0 == "removed"@);
    lemma_field_of_at(ms, "removed"@, 7);
    assert(ms[8].0 == "timestamp"@);
    lemma_field_of_at(ms, "timestamp"@, 8);
    assert(ms[9].0 == "tree_id"@);
    lemma_field_of_at(ms, "tree_id"@, 9);
    assert(ms[10].0 == "url"@);
    lemma_field_of_at(ms, "url"@, 10);
    if let Some(ss) = x.added {
        lemma_rt_vec_string(ss);
        assert(se_vec_string(ss) is Arr);
    }
    lemma_rt_author(x.author);
    lemma_rt_committer(x.committer);
    if let Some(ss) = x.modified {
        lemma_rt_vec_string(ss);
        assert(se_vec_string(ss) is Arr);
    }
    if let Some(ss) = x.removed {
        lemma_rt_vec_string(ss);
        assert(se_vec_string(ss) is Arr);
    }
}

/// Decoding the rendering of a `LastResponse` record gives the record back.
#[verifier::rlimit(100)]
proof fn lemma_rt_last_response(x: LastResponseModel)
    ensures
        sd_last_response(se_last_response(x)) == Ok::<LastResponseModel, DecodeErrorModel>(x),
{
    reveal_strlit("code");
    reveal_strlit("status");
    reveal_strlit("message");
    assert("code"@.len() == 4);
    assert("status"@.len() == 6);
    assert("message"@.len() == 7);
    let ms = se_last_response(x)->Obj_0;
    assert(ms[0].0 == "code"@);
    lemma_field_of_at(ms, "code"@, 0);
    assert(ms[1].0 == "status"@);
    lemma_field_of_at(ms, "status"@, 1);
    assert(ms[2].0 == "message"@);
    lemma_field_of_at(ms, "message"@, 2);
    if let Some(n) = x.code {
        lemma_int_text_round_trip(n as int);
    }
}

/// Decoding the rendering of a `Config` record gives the record back.
#[verifier::rlimit(100)]
proof fn lemma_rt_config(x: ConfigModel)
    ensures
        sd_config(se_config(x)) == Ok::<ConfigModel, DecodeErrorModel>(x),
{
    reveal_strlit("content_type");
    reveal_strlit("insecure_ssl");
    reveal_strlit("secret");
    reveal_strlit("url");
    assert("content_type"@.len() == 12);
    assert("insecure_ssl"@.len() == 12);
    assert("secret"@.len() == 6);
    assert("url"@.len() == 3);
    assert("insecure_ssl"@[0] == 'i');
    assert("content_type"@[0] == 'c');
    let ms = se_config(x)->Obj_0;
    assert(ms[0].0 == "content_type"@);
    lemma_field_of_at(ms, "content_type"@, 0);
    assert(ms[1].0 == "insecure_ssl"@);
    lemma_field_of_at(ms, "insecure_ssl"@, 1);
    assert(ms[2].0 == "secret"@);
    lemma_field_of_at(ms, "secret"@, 2);
    assert(ms[3].0 == "url"@);
    lemma_field_of_at(ms, "url"@, 3);
    lemma_rt_content_type(x.content_type);
}

/// Decoding the rendering of a `Hook` record gives the record back.
#[verifier::rlimit(100)]
proof fn lemma_rt_hook(x: HookModel)
    ensures
        sd_hook(se_hook(x)) == Ok::<HookModel, DecodeErrorModel>(x),
{
    reveal_strlit("active");
    reveal_strlit("app_id");
    reveal_strlit("config");
    reveal_strlit("created_at");
    reveal_strlit("deliveries_url");
    reveal_strlit("events");
    reveal_strlit("id");
    reveal_strlit("last_response");
    reveal_strlit("name");
    reveal_strlit("ping_url");
    reveal_strlit("test_url");
    reveal_strlit("type");
    reveal_strlit("updated_at");
    reveal_strlit("url");
    assert("active"@.len() == 6);
    assert("app_id"@.len() == 6);
    assert("config"@.len() == 6);
    assert("created_at"@.len() == 10);
    assert("deliveries_url"@.len() == 14);
    assert("events"@.len() == 6);
    assert("id"@.len() == 2);
    assert("last_response"@.len() == 13);
    assert("name"@.len() == 4);
    assert("ping_url"@.len() == 8);
    assert("test_url"@.len() == 8);
    assert("type"@.len() == 4);
    assert("updated_at"@.len() == 10);
    assert("url"@.len() == 3);
    assert("app_id"@[1] == 'p');
    assert("active"@[1] == 'c');
    assert("config"@[0] == 'c');
    assert("active"@[0] == 'a');
    assert("config"@[0] == 'c');
    assert("app_id"@[0] == 'a');
    assert("events"@[0] == 'e');
    assert("active"@[0] == 'a');
    assert("events"@[0] == 'e');
    assert("app_id"@[0] == 'a');
    assert("events"@[0] == 'e');
    assert("config"@[0] == 'c');
    assert("test_url"@[0] == 't');
    assert("ping_url"@[0] == 'p');
    assert("type"@[0] == 't');
    assert("name"@[0] == 'n');
    assert("updated_at"@[0] == 'u');
    assert("created_at"@[0] == 'c');
    let ms = se_hook(x)->Obj_0;
    assert(ms[0].0 == "active"@);
    lemma_field_of_at(ms, "active"@, 0);
    assert(ms[1].0 == "app_id"@);
    lemma_field_of_at(ms, "app_id"@, 1);
    assert(ms[2].0 == "config"@);
    lemma_field_of_at(ms, "config"@, 2);
    assert(ms[3].0 == "created_at"@);
    lemma_field_of_at(ms, "created_at"@, 3);
    assert(ms[4].0 == "deliveries_url"@);
    lemma_field_of_at(ms, "deliveries_url"@, 4);
    assert(ms[5].0 == "events"@);
    lemma_field_of_at(ms, "events"@, 5);
    assert(ms[6].0 == "id"@);
    lemma_field_of_at(ms, "id"@, 6);
    assert(ms[7].0 == "last_response"@);
    lemma_field_of_at(ms, "last_response"@, 7);
    assert(ms[8].0 == "name"@);
    lemma_field_of_at(ms, "name"@, 8);
    assert(ms[9].0 == "ping_url"@);
    lemma_field_of_at(ms, "ping_url"@, 9);
    assert(ms[10].0 == "test_url"@);
    lemma_field_of_at(ms, "test_url"@, 10);
    assert(ms[11].0 == "type"@);
    lemma_field_of_at(ms, "type"@, 11);
    assert(ms[12].0 == "updated_at"@);
    lemma_field_of_at(ms, "updated_at"@, 12);
    assert(ms[13].0 == "url"@);
    lemma_field_of_at(ms, "url"@, 13);
    if let Some(n) = x.app_id {
        lemma_int_text_round_trip(n as int);
    }
    lemma_rt_config(x.config);
    lemma_rt_vec_string(x.events);
    lemma_int_text_round_trip(x.id as int);
    if let Some(x) = x.last_response {
        lemma_rt_last_response(x);
        assert(se_last_response(x) is Obj);
    }
    lemma_rt_web(x.name);
}

/// Decoding the rendering of a `BranchProtectionRule` record gives the record back.
#[verifier::rlimit(100)]
proof fn lemma_rt_branch_protection_rule(x: BranchProtectionRuleModel)
    ensures
        sd_branch_protection_rule(se_branch_protection_rule(x)) == Ok::<BranchProtectionRuleModel, DecodeErrorModel>(x),
{
    reveal_strlit("admin_enforced");
    reveal_strlit("allow_deletions_enforcement_level");
    reveal_strlit("authorized_actor_names");
    reveal_strlit("authorized_actors_only");
    reveal_strlit("authorized_dismissal_actors_only");
    reveal_strlit("create_protected");
    reveal_strlit("created_at");
    reveal_strlit("dismiss_stale_reviews_on_push");
    reveal_strlit("id");
    reveal_strlit("ignore_approvals_from_contributors");
    reveal_strlit("linear_history_requirement_enforcement_level");
    reveal_strlit("merge_queue_enforcement_level");
    reveal_strlit("name");
    reveal_strlit("pull_request_revies_enforcement_level");
    reveal_strlit("repository_id");
    reveal_strlit("require_code_owner_review");
    reveal_strlit("required_approving_review_count");
    reveal_strlit("required_conversation_resolution_level");
    reveal_strlit("required_deployments_enforcement_level");
    reveal_strlit("required_status_checks");
    reveal_strlit("required_status_checks_enforcement_level");
    reveal_strlit("signature_requirement_enforcement_level");
    reveal_strlit("strict_required_status_checks_policy");
    reveal_strlit("updated_at");
    assert("admin_enforced"@.len() == 14);
    assert("allow_deletions_enforcement_level"@.len() == 33);
    assert("authorized_actor_names"@.len() == 22);
    assert("authorized_actors_only"@.len() == 22);
    assert("authorized_dismissal_actors_only"@.len() == 32);
    assert("create_protected"@.len() == 16);
    assert("created_at"@.len() == 10);
    assert("dismiss_stale_reviews_on_push"@.len() == 29);
    assert("id"@.len() == 2);
    assert("ignore_approvals_from_contributors"@.len() == 34);
    assert("linear_history_requirement_enforcement_level"@.len() == 44);
    assert("merge_queue_enforcement_level"@.len() == 29);
    assert("name"@.len() == 4);
    assert("pull_request_revies_enforcement_level"@.len() == 37);
    assert("repository_id"@.len() == 13);
    assert("require_code_owner_review"@.len() == 25);
    assert("required_approving_review_count"@.len() == 31);
    assert("required_conversation_resolution_level"@.len() == 38);
    assert("required_deployments_enforcement_level"@.len() == 38);
    assert("required_status_checks"@.len() == 22);
    assert("required_status_checks_enforcement_level"@.len() == 40);
    assert("signature_requirement_enforcement_level"@.len() == 39);
    assert("strict_required_status_checks_policy"@.len() == 36);
    assert("updated_at"@.len() == 10);
    assert("authorized_actors_only"@[16] == 's');
    assert("authorized_actor_names"@[16] == '_');
    assert("merge_queue_enforcement_level"@[0] == 'm');
    assert("dismiss_stale_reviews_on_push"@[0] == 'd');
    assert("required_deployments_enforcement_level"@[9] == 'd');
    assert("required_conversation_resolution_level"@[9] == 'c');
    assert("required_status_checks"@[0] == 'r');
    assert("authorized_actor_names"@[0] == 'a');
    assert("required_status_checks"@[0] == 'r');
    assert("authorized_actors_only"@[0] == 'a');
    assert("updated_at"@[0] == 'u');
    assert("created_at"@[0] == 'c');
    let ms = se_branch_protection_rule(x)->Obj_0;
    assert(ms[0].0 == "admin_enforced"@);
    lemma_field_of_at(ms, "admin_enforced"@, 0);
    assert(ms[1].0 == "allow_deletions_enforcement_level"@);
    lemma_field_of_at(ms, "allow_deletions_enforcement_level"@, 1);
    assert(ms[2].0 == "authorized_actor_names"@);
    lemma_field_of_at(ms, "authorized_actor_names"@, 2);
    assert(ms[3].0 == "authorized_actors_only"@);
    lemma_field_of_at(ms, "authorized_actors_only"@, 3);
    assert(ms[4].0 == "authorized_dismissal_actors_only"@);
    lemma_field_of_at(ms, "authorized_dismissal_actors_only"@, 4);
    assert(ms[5].0 == "create_protected"@);
    lemma_field_of_at(ms, "create_protected"@, 5);
    assert(ms[6].0 == "created_at"@);
    lemma_field_of_at(ms, "created_at"@, 6);
    assert(ms[7].0 == "dismiss_stale_reviews_on_push"@);
    lemma_field_of_at(ms, "dismiss_stale_reviews_on_push"@, 7);
    assert(ms[8].0 == "id"@);
    lemma_field_of_at(ms, "id"@, 8);
    assert(ms[9].0 == "ignore_approvals_from_contributors"@);
    lemma_field_of_at(ms, "ignore_approvals_from_contributors"@, 9);
    assert(ms[10].0 == "linear_history_requirement_enforcement_level"@);
    lemma_field_of_at(ms, "linear_history_requirement_enforcement_level"@, 10);
    assert(ms[11].0 == "merge_queue_enforcement_level"@);
    lemma_field_of_at(ms, "merge_queue_enforcement_level"@, 11);
    assert(ms[12].0 == "name"@);
    lemma_field_of_at(ms, "name"@, 12);
    assert(ms[13].0 == "pull_request_revies_enforcement_level"@);
    lemma_field_of_at(ms, "pull_request_revies_enforcement_level"@, 13);
    assert(ms[14].0 == "repository_id"@);
    lemma_field_of_at(ms, "repository_id"@, 14);
    assert(ms[15].0 == "require_code_owner_review"@);
    lemma_field_of_at(ms, "require_code_owner_review"@, 15);
    assert(ms[16].0 == "required_approving_review_count"@);
    lemma_field_of_at(ms, "required_approving_review_count"@, 16);
    assert(ms[17].0 == "required_conversation_resolution_level"@);
    lemma_field_of_at(ms, "required_conversation_resolution_level"@, 17);
    assert(ms[18].0 == "required_deployments_enforcement_level"@);
    lemma_field_of_at(ms, "required_deployments_enforcement_level"@, 18);
    assert(ms[19].0 == "required_status_checks"@);
    lemma_field_of_at(ms, "required_status_checks"@, 19);
    assert(ms[20].0 == "required_status_checks_enforcement_level"@);
    lemma_field_of_at(ms, "required_status_checks_enforcement_level"@, 20);
    assert(ms[21].0 == "signature_requirement_enforcement_level"@);
    lemma_field_of_at(ms, "signature_requirement_enforcement_level"@, 21);
    assert(ms[22].0 == "strict_required_status_checks_policy"@);
    lemma_field_of_at(ms, "strict_required_status_checks_policy"@, 22);
    assert(ms[23].0 == "updated_at"@);
    lemma_field_of_at(ms, "updated_at"@, 23);
    lemma_rt_vec_string(x.authorized_actor_names);
    lemma_int_text_round_trip(x.id as int);
    lemma_rt_enforcement_level(x.linear_history_requirement_enforcement_level);
    lemma_rt_enforcement_level(x.merge_queue_enforcement_level);
    lemma_rt_enforcement_level(x.pull_request_revies_enforcement_level);
    lemma_int_text_round_trip(x.repository_id as int);
    lemma_int_text_round_trip(x.required_approving_review_count as int);
    lemma_rt_enforcement_level(x.required_conversation_resolution_level);
    lemma_rt_enforcement_level(x.required_deployments_enforcement_level);
    lemma_rt_vec_string(x.required_status_checks);
    lemma_rt_enforcement_level(x.required_status_checks_enforcement_level);
    lemma_rt_enforcement_level(x.signature_requirement_enforcement_level);
}

/// An event model is in the range of decoding: no optional opaque field
/// holds an explicit null, which the wire cannot tell from an absent one.
pub open spec fn event_normal(em: EventModel) -> bool {
    match em {
        EventModel::BranchProtectionRule { action, enterprise, repository, installation, organization, rule, sender, changes } => {
            &&& enterprise != Some(JsonModel::Null)
            &&& repository != Some(JsonModel::Null)
            &&& installation != Some(JsonModel::Null)
            &&& organization != Some(JsonModel::Null)
            &&& changes != Some(JsonModel::Null)
        },
        EventModel::CheckRun { .. } => true,
        EventModel::CheckSuite { .. } => true,
        EventModel::CodeScanningAlert { .. } => true,
        EventModel::CommitComment { .. } => true,
        EventModel::Create { .. } => true,
        EventModel::Delete { .. } => true,
        EventModel::DependabotAlert { .. } => true,
        EventModel::DeployKey { .. } => true,
        EventModel::Deployment { .. } => true,
        EventModel::DeploymentStatus { .. } => true,
        EventModel::Discussion { .. } => true,
        EventModel::DiscussionComment { .. } => true,
        EventModel::Fork { .. } => true,
        EventModel::GithubAppAuthorization { .. } => true,
        EventModel::Gollum { .. } => true,
        EventModel::Installation { .. } => true,
        EventModel::InstallationRepositories { .. } => true,
        EventModel::InstallationTarget { .. } => true,
        EventModel::IssueComment { .. } => true,
        EventModel::Issues { .. } => true,
        EventModel::Label { .. } => true,
        EventModel::MarketplacePurchase { .. } => true,
        EventModel::Member { .. } => true,
        EventModel::Membership { .. } => true,
        EventModel::MergeGroup { .. } => true,
        EventModel::Meta { .. } => true,
        EventModel::Milestone { .. } => true,
        EventModel::OrgBlock { .. } => true,
        EventModel::Organization { .. } => true,
        EventModel::Package { .. } => true,
        EventModel::PageBuild { .. } => true,
        EventModel::Ping { hook, hook_id, organization, repository, sender, zen } => {
            &&& organization != Some(JsonModel::Null)
            &&& repository != Some(JsonModel::Null)
        },
        EventModel::ProjectCard { .. } => true,
        EventModel::Project { .. } => true,
        EventModel::ProjectColumn { .. } => true,
        EventModel::ProjectsV2 { .. } => true,
        EventModel::ProjectsV2Item { .. } => true,
        EventModel::Public { .. } => true,
        EventModel::PullRequest { .. } => true,
        EventModel::PullRequestReviewComments { .. } => true,
        EventModel::PullRequestReview { .. } => true,
        EventModel::PullRequestReviewThread { .. } => true,
        EventModel::Push { after, base_ref, before, commits, compare, created, deleted, enterprise, forced, head_commit, installation, organization, pusher, git_ref, repository, sender } => {
            &&& enterprise != Some(JsonModel::Null)
            &&& installation != Some(JsonModel::Null)
            &&& organization != Some(JsonModel::Null)
        },
        EventModel::RegistryPackage { .. } => true,
        EventModel::Release { .. } => true,
        EventModel::Repository { .. } => true,
        EventModel::RepositoryDispatch { .. } => true,
        EventModel::RepositoryImport { .. } => true,
        EventModel::RepositoryVulnerabilityAlert { .. } => true,
        EventModel::SecretScanningAlert { .. } => true,
        EventModel::SecretScanningAlertLocation { .. } => true,
        EventModel::SecretAdvisory { .. } => true,
        EventModel::SecurityAndAnalysis { .. } => true,
        EventModel::Sponsorship { .. } => true,
        EventModel::Star { .. } => true,
        EventModel::Status { .. } => true,
        EventModel::TeamAdd { .. } => true,
        EventModel::Team { .. } => true,
        EventModel::Watch { .. } => true,
        EventModel::WorkflowDispatch { .. } => true,
        EventModel::WorkflowJob { .. } => true,
        EventModel::WorkflowRun { .. } => true,
    }
}

/// The payload a `branch_protection_rule` event renders to decodes back to the same model.
#[verifier::rlimit(100)]
proof fn lemma_event_rt_branch_protection_rule(em: EventModel)
    requires
        em is BranchProtectionRule,
        event_normal(em),
    ensures
        sd_event_payload(EventKind::BranchProtectionRule, se_event_payload(em)) == Ok::<
            EventModel,
            DecodeErrorModel,
        >(em),
{
    match em {
        EventModel::BranchProtectionRule { action, enterprise, repository, installation, organization, rule, sender, changes } => {
            reveal_strlit("action");
            reveal_strlit("enterprise");
            reveal_strlit("repository");
            reveal_strlit("installation");
            reveal_strlit("organization");
            reveal_strlit("rule");
            reveal_strlit("sender");
            reveal_strlit("changes");
            assert("action"@.len() == 6);
            assert("enterprise"@.len() == 10);
            assert("repository"@.len() == 10);
            assert("installation"@.len() == 12);
            assert("organization"@.len() == 12);
            assert("rule"@.len() == 4);
            assert("sender"@.len() == 6);
            assert("changes"@.len() == 7);
            assert("repository"@[0] == 'r');
            assert("enterprise"@[0] == 'e');
            assert("organization"@[0] == 'o');
            assert("installation"@[0] == 'i');
            assert("sender"@[0] == 's');
            assert("action"@[0] == 'a');
            let ms = se_event_payload(em)->Obj_0;
            assert(ms[0].0 == "action"@);
            lemma_field_of_at(ms, "action"@, 0);
            assert(ms[1].0 == "enterprise"@);
            lemma_field_of_at(ms, "enterprise"@, 1);
            assert(ms[2].0 == "repository"@);
            lemma_field_of_at(ms, "repository"@, 2);
            assert(ms[3].0 == "installation"@);
            lemma_field_of_at(ms, "installation"@, 3);
            assert(ms[4].0 == "organization"@);
            lemma_field_of_at(ms, "organization"@, 4);
            assert(ms[5].0 == "rule"@);
            lemma_field_of_at(ms, "rule"@, 5);
            assert(ms[6].0 == "sender"@);
            lemma_field_of_at(ms, "sender"@, 6);
            assert(ms[7].0 == "changes"@);
            lemma_field_of_at(ms, "changes"@, 7);
        lemma_rt_branch_protection_rule(rule);
        },
        _ => {
        },
    }
}

/// The payload a `ping` event renders to decodes back to the same model.
#[verifier::rlimit(100)]
proof fn lemma_event_rt_ping(em: EventModel)
    requires
        em is Ping,
        event_normal(em),
    ensures
        sd_event_payload(EventKind::Ping, se_event_payload(em)) == Ok::<
            EventModel,
            DecodeErrorModel,
        >(em),
{
    match em {
        EventModel::Ping { hook, hook_id, organization, repository, sender, zen } => {
            reveal_strlit("hook");
            reveal_strlit("hook_id");
            reveal_strlit("organization");
            reveal_strlit("repository");
            reveal_strlit("sender");
            reveal_strlit("zen");
            assert("hook"@.len() == 4);
            assert("hook_id"@.len() == 7);
            assert("organization"@.len() == 12);
            assert("repository"@.len() == 10);
            assert("sender"@.len() == 6);
            assert("zen"@.len() == 3);
            let ms = se_event_payload(em)->Obj_0;
            assert(ms[0].0 == "hook"@);
            lemma_field_of_at(ms, "hook"@, 0);
            assert(ms[1].0 == "hook_id"@);
            lemma_field_of_at(ms, "hook_id"@, 1);
            assert(ms[2].0 == "organization"@);
            lemma_field_of_at(ms, "organization"@, 2);
            assert(ms[3].0 == "repository"@);
            lemma_field_of_at(ms, "repository"@, 3);
            assert(ms[4].0 == "sender"@);
            lemma_field_of_at(ms, "sender"@, 4);
            assert(ms[5].0 == "zen"@);
            lemma_field_of_at(ms, "zen"@, 5);
        if let Some(x) = hook {
            lemma_rt_hook(x);
            assert(se_hook(x) is Obj);
        }
        if let Some(n) = hook_id {
            lemma_int_text_round_trip(n as int);
        }
        },
        _ => {
        },
    }
}

/// The payload a `push` event renders to decodes back to the same model.
#[verifier::rlimit(100)]
proof fn lemma_event_rt_push(em: EventModel)
    requires
        em is Push,
        event_normal(em),
    ensures
        sd_event_payload(EventKind::Push, se_event_payload(em)) == Ok::<
            EventModel,
            DecodeErrorModel,
        >(em),
{
    match em {
        EventModel::Push { after, base_ref, before, commits, compare, created, deleted, enterprise, forced, head_commit, installation, organization, pusher, git_ref, repository, sender } => {
            reveal_strlit("after");
            reveal_strlit("base_ref");
            reveal_strlit("before");
            reveal_strlit("commits");
            reveal_strlit("compare");
            reveal_strlit("created");
            reveal_strlit("deleted");
            reveal_strlit("enterprise");
            reveal_strlit("forced");
            reveal_strlit("head_commit");
            reveal_strlit("installation");
            reveal_strlit("organization");
            reveal_strlit("pusher");
            reveal_strlit("ref");
            reveal_strlit("repository");
            reveal_strlit("sender");
            assert("after"@.len() == 5);
            assert("base_ref"@.len() == 8);
            assert("before"@.len() == 6);
            assert("commits"@.len() == 7);
            assert("compare"@.len() == 7);
            assert("created"@.len() == 7);
            assert("deleted"@.len() == 7);
            assert("enterprise"@.len() == 10);
            assert("forced"@.len() == 6);
            assert("head_commit"@.len() == 11);
            assert("installation"@.len() == 12);
            assert("organization"@.len() == 12);
            assert("pusher"@.len() == 6);
            assert("ref"@.len() == 3);
            assert("repository"@.len() == 10);
            assert("sender"@.len() == 6);
            assert("compare"@[3] == 'p');
            assert("commits"@[3] == 'm');
            assert("created"@[1] == 'r');
            assert("commits"@[1] == 'o');
            assert("created"@[1] == 'r');
            assert("compare"@[1] == 'o');
            assert("deleted"@[0] == 'd');
            assert("commits"@[0] == 'c');
            assert("deleted"@[0] == 'd');
            assert("compare"@[0] == 'c');
            assert("deleted"@[0] == 'd');
            assert("created"@[0] == 'c');
            assert("forced"@[0] == 'f');
            assert("before"@[0] == 'b');
            assert("organization"@[0] == 'o');
            assert("installation"@[0] == 'i');
            assert("pusher"@[0] == 'p');
            assert("before"@[0] == 'b');
            assert("pusher"@[0] == 'p');
            assert("forced"@[0] == 'f');
            assert("repository"@[0] == 'r');
            assert("enterprise"@[0] == 'e');
            assert("sender"@[0] == 's');
            assert("before"@[0] == 'b');
            assert("sender"@[0] == 's');
            assert("forced"@[0] == 'f');
            assert("sender"@[0] == 's');
            assert("pusher"@[0] == 'p');
            let ms = se_event_payload(em)->Obj_0;
            assert(ms[0].0 == "after"@);
            lemma_field_of_at(ms, "after"@, 0);
            assert(ms[1].0 == "base_ref"@);
            lemma_field_of_at(ms, "base_ref"@, 1);
            assert(ms[2].0 == "before"@);
            lemma_field_of_at(ms, "before"@, 2);
            assert(ms[3].0 == "commits"@);
            lemma_field_of_at(ms, "commits"@, 3);
            assert(ms[4].0 == "compare"@);
            lemma_field_of_at(ms, "compare"@, 4);
            assert(ms[5].0 == "created"@);
            lemma_field_of_at(ms, "created"@, 5);
            assert(ms[6].0 == "deleted"@);
            lemma_field_of_at(ms, "deleted"@, 6);
            assert(ms[7].0 == "enterprise"@);
            lemma_field_of_at(ms, "enterprise"@, 7);
            assert(ms[8].0 == "forced"@);
            lemma_field_of_at(ms, "forced"@, 8);
            assert(ms[9].0 == "head_commit"@);
            lemma_field_of_at(ms, "head_commit"@, 9);
            assert(ms[10].0 == "installation"@);
            lemma_field_of_at(ms, "installation"@, 10);
            assert(ms[11].0 == "organization"@);
            lemma_field_of_at(ms, "organization"@, 11);
            assert(ms[12].0 == "pusher"@);
            lemma_field_of_at(ms, "pusher"@, 12);
            assert(ms[13].0 == "ref"@);
            lemma_field_of_at(ms, "ref"@, 13);
            assert(ms[14].0 == "repository"@);
            lemma_field_of_at(ms, "repository"@, 14);
            assert(ms[15].0 == "sender"@);
            lemma_field_of_at(ms, "sender"@, 15);
        lemma_rt_commit_list(commits);
        lemma_rt_head_commit(head_commit);
        lemma_rt_pusher(pusher);
        },
        _ => {
        },
    }
}

/// Decoding what an event renders to gives the event back: for every
/// event model whose optional opaque fields are not explicit nulls, the
/// rendered name and payload decode to the same model.
#[verifier::rlimit(100)]
pub proof fn lemma_event_round_trip(em: EventModel)
    requires
        event_normal(em),
    ensures
        sd_event(kind_name(model_kind(em)), se_event_payload(em)) == Ok::<
            EventModel,
            DecodeErrorModel,
        >(em),
{
    lemma_kind_name_round_trip(model_kind(em));
    match em {
        EventModel::BranchProtectionRule { .. } => {
            lemma_event_rt_branch_protection_rule(em);
        },
        EventModel::CheckRun { .. } => {
        },
        EventModel::CheckSuite { .. } => {
        },
        EventModel::CodeScanningAlert { .. } => {
        },
        EventModel::CommitComment { .. } => {
        },
        EventModel::Create { .. } => {
        },
        EventModel::Delete { .. } => {
        },
        EventModel::DependabotAlert { .. } => {
        },
        EventModel::DeployKey { .. } => {
        },
        EventModel::Deployment { .. } => {
        },
        EventModel::DeploymentStatus { .. } => {
        },
        EventModel::Discussion { .. } => {
        },
        EventModel::DiscussionComment { .. } => {
        },
        EventModel::Fork { .. } => {
        },
        EventModel::GithubAppAuthorization { .. } => {
        },
        EventModel::Gollum { .. } => {
        },
        EventModel::Installation { .. } => {
        },
        EventModel::InstallationRepositories { .. } => {
        },
        EventModel::InstallationTarget { .. } => {
        },
        EventModel::IssueComment { .. } => {
        },
        EventModel::Issues { .. } => {
        },
        EventModel::Label { .. } => {
        },
        EventModel::MarketplacePurchase { .. } => {
        },
        EventModel::Member { .. } => {
        },
        EventModel::Membership { .. } => {
        },
        EventModel::MergeGroup { .. } => {
        },
        EventModel::Meta { .. } => {
        },
        EventModel::Milestone { .. } => {
        },
        EventModel::OrgBlock { .. } => {
        },
        EventModel::Organization { .. } => {
        },
        EventModel::Package { .. } => {
        },
        EventModel::PageBuild { .. } => {
        },
        EventModel::Ping { .. } => {
            lemma_event_rt_ping(em);
        },
        EventModel::ProjectCard { .. } => {
        },
        EventModel::Project { .. } => {
        },
        EventModel::ProjectColumn { .. } => {
        },
        EventModel::ProjectsV2 { .. } => {
        },
        EventModel::ProjectsV2Item { .. } => {
        },
        EventModel::Public { .. } => {
        },
        EventModel::PullRequest { .. } => {
        },
        EventModel::PullRequestReviewComments { .. } => {
        },
        EventModel::PullRequestReview { .. } => {
        },
        EventModel::PullRequestReviewThread { .. } => {
        },
        EventModel::Push { .. } => {
            lemma_event_rt_push(em);
        },
        EventModel::RegistryPackage { .. } => {
        },
        EventModel::Release { .. } => {
        },
        EventModel::Repository { .. } => {
        },
        EventModel::RepositoryDispatch { .. } => {
        },
        EventModel::RepositoryImport { .. } => {
        },
        EventModel::RepositoryVulnerabilityAlert { .. } => {
        },
        EventModel::SecretScanningAlert { .. } => {
        },
        EventModel::SecretScanningAlertLocation { .. } => {
        },
        EventModel::SecretAdvisory { .. } => {
        },
        EventModel::SecurityAndAnalysis { .. } => {
        },
        EventModel::Sponsorship { .. } => {
        },
        EventModel::Star { .. } => {
        },
        EventModel::Status { .. } => {
        },
        EventModel::TeamAdd { .. } => {
        },
        EventModel::Team { .. } => {
        },
        EventModel::Watch { .. } => {
        },
        EventModel::WorkflowDispatch { .. } => {
        },
        EventModel::WorkflowJob { .. } => {
        },
        EventModel::WorkflowRun { .. } => {
        },
    }
}

} // verus!
