//! Decoding a JSON tree into the metadata model.
//!
//! This is the schema layer: which keys each entity requires, which defaults
//! apply when a key is absent, and which values are type errors.  Unknown
//! keys are ignored throughout, so newer tools may add fields freely.  Each
//! entity's rules live in a spec function, and the corresponding `from_json`
//! constructor is proved to follow it exactly.
use vstd::prelude::*;

use crate::dependency::Dependency;
use crate::dependency::DependencyView;
use crate::errors::field_error;
use crate::errors::Error;
use crate::json::arr_model;
use crate::json::json_get;
use crate::json::json_model;
use crate::json::lemma_arr_model;
use crate::json::JsonModel;
use crate::json::JsonValue;
use crate::Edition;
use crate::PackageManager;
use crate::Version;
use crate::VersionView;

verus! {

/// What `semver` accepts the characters as: the parsed components, or
/// nothing where they are not a valid semantic version.
pub uninterp spec fn parsed_semver(s: Seq<char>) -> Option<VersionView>;

/// Relies on `semver::Version::parse`: whether the text is a valid semantic
/// version, and which components it has, depend on the text alone.
#[verifier::external_body]
fn parse_semver(s: &str) -> (r: Option<Version>)
    ensures
        match r {
            Some(v) => parsed_semver(s@) == Some(v@),
            None => parsed_semver(s@) is None,
        },
{
    match semver::Version::parse(s) {
        Ok(v) => Some(
            Version {
                major: v.major,
                minor: v.minor,
                patch: v.patch,
                pre: v.pre.as_str().to_string(),
                build: v.build.as_str().to_string(),
            },
        ),
        Err(_) => None,
    }
}

/// A required string key: its characters, or nothing where the key is
/// absent or holds a value of another type.
pub open spec fn req_str_field(j: JsonModel, key: Seq<char>) -> Option<Seq<char>> {
    match json_get(j, key) {
        Some(JsonModel::Str(s)) => Some(s),
        _ => None,
    }
}

/// An optional string key: absent and `null` both mean "not given"; any
/// other non-string value is a type error (the outer `None`).
pub open spec fn opt_str_field(j: JsonModel, key: Seq<char>) -> Option<Option<Seq<char>>> {
    match json_get(j, key) {
        None => Some(None),
        Some(JsonModel::Null) => Some(None),
        Some(JsonModel::Str(s)) => Some(Some(s)),
        Some(_) => None,
    }
}

/// A boolean key that older tools do not emit: absent means `true`.
pub open spec fn bool_field_default_true(j: JsonModel, key: Seq<char>) -> Option<bool> {
    match json_get(j, key) {
        None => Some(true),
        Some(JsonModel::Bool(b)) => Some(b),
        Some(_) => None,
    }
}

/// The characters of a string element; arrays of strings admit nothing
/// else.
pub open spec fn spec_str_elem(j: JsonModel) -> Option<Seq<char>> {
    match j {
        JsonModel::Str(s) => Some(s),
        _ => None,
    }
}

/// Decodes every element of an array of strings, failing where any element
/// is not a string.
pub open spec fn str_elems(items: Seq<JsonModel>) -> Option<Seq<Seq<char>>>
    decreases items.len(),
{
    if items.len() == 0 {
        Some(Seq::empty())
    } else {
        match spec_str_elem(items.first()) {
            Some(head) => match str_elems(items.drop_first()) {
                Some(rest) => Some(seq![head] + rest),
                None => None,
            },
            None => None,
        }
    }
}

/// Reads an array of strings into owned strings, in order.
fn decode_str_vec(items: &Vec<JsonValue>, what: &str) -> (r: Result<Vec<String>, Error>)
    ensures
        match r {
            Ok(v) => str_elems(arr_model(items@)) == Some(v.deep_view()),
            Err(e) => str_elems(arr_model(items@)) is None && e is Json,
        },
{
    let ghost model = arr_model(items@);
    proof {
        lemma_arr_model(items@);
        assert(model.skip(0) =~= model);
    }
    let n = items.len();
    let mut out: Vec<String> = Vec::new();
    let mut i: usize = 0;
    while i < n
        invariant
            i <= n,
            n == items@.len(),
            model == arr_model(items@),
            model.len() == n,
            forall|k: int| 0 <= k < n ==> #[trigger] model[k] == json_model(items@[k]),
            out.deep_view().len() == i,
            str_elems(model) == (match str_elems(model.skip(i as int)) {
                Some(rest) => Some(out.deep_view() + rest),
                None => None::<Seq<Seq<char>>>,
            }),
        decreases n - i,
    {
        proof {
            assert(model.skip(i as int).first() == model[i as int]);
            assert(model.skip(i as int).drop_first() =~= model.skip(i + 1));
        }
        match &items[i] {
            JsonValue::Str(s) => {
                let ghost prev = out.deep_view();
                out.push(s.clone());
                proof {
                    assert(out.deep_view() =~= prev.push(s@));
                    if str_elems(model.skip(i + 1)) is Some {
                        let rest = str_elems(model.skip(i + 1))->0;
                        assert(prev + (seq![s@] + rest) =~= out.deep_view() + rest);
                    }
                }
            },
            _ => {
                proof {
                    assert(spec_str_elem(model[i as int]) is None);
                }
                return Err(field_error("expected an array of strings under key: ", what));
            },
        }
        i = i + 1;
    }
    proof {
        assert(model.skip(n as int) =~= Seq::<JsonModel>::empty());
        assert(out.deep_view() + Seq::<Seq<char>>::empty() =~= out.deep_view());
    }
    Ok(out)
}

/// Reads an array of strings into package identifiers, in order.
fn decode_id_vec(items: &Vec<JsonValue>, what: &str) -> (r: Result<Vec<crate::PackageId>, Error>)
    ensures
        match r {
            Ok(v) => str_elems(arr_model(items@)) == Some(v.deep_view()),
            Err(e) => str_elems(arr_model(items@)) is None && e is Json,
        },
{
    let ghost model = arr_model(items@);
    proof {
        lemma_arr_model(items@);
        assert(model.skip(0) =~= model);
    }
    let n = items.len();
    let mut out: Vec<crate::PackageId> = Vec::new();
    let mut i: usize = 0;
    while i < n
        invariant
            i <= n,
            n == items@.len(),
            model == arr_model(items@),
            model.len() == n,
            forall|k: int| 0 <= k < n ==> #[trigger] model[k] == json_model(items@[k]),
            out.deep_view().len() == i,
            str_elems(model) == (match str_elems(model.skip(i as int)) {
                Some(rest) => Some(out.deep_view() + rest),
                None => None::<Seq<Seq<char>>>,
            }),
        decreases n - i,
    {
        proof {
            assert(model.skip(i as int).first() == model[i as int]);
            assert(model.skip(i as int).drop_first() =~= model.skip(i + 1));
        }
        match &items[i] {
            JsonValue::Str(s) => {
                let ghost prev = out.deep_view();
                out.push(crate::PackageId { repr: s.clone() });
                proof {
                    assert(out.deep_view() =~= prev.push(s@));
                    if str_elems(model.skip(i + 1)) is Some {
                        let rest = str_elems(model.skip(i + 1))->0;
                        assert(prev + (seq![s@] + rest) =~= out.deep_view() + rest);
                    }
                }
            },
            _ => {
                proof {
                    assert(spec_str_elem(model[i as int]) is None);
                }
                return Err(field_error("expected an array of ids under key: ", what));
            },
        }
        i = i + 1;
    }
    proof {
        assert(model.skip(n as int) =~= Seq::<JsonModel>::empty());
        assert(out.deep_view() + Seq::<Seq<char>>::empty() =~= out.deep_view());
    }
    Ok(out)
}

/// The numeric value of a decimal digit string.
pub open spec fn dec_val(s: Seq<char>) -> nat
    decreases s.len(),
{
    if s.len() == 0 {
        0
    } else {
        dec_val(s.drop_last()) * 10 + digit_val(s.last())
    }
}

/// The numeric value of one decimal digit character.
pub open spec fn digit_val(c: char) -> nat {
    (c as u32 - 48) as nat
}

/// Whether `c` is a decimal digit character.
pub open spec fn is_digit(c: char) -> bool {
    48 <= c as u32 <= 57
}

/// Whether the characters are a plain decimal numeral, as unsigned integers
/// appear in the tool's JSON output.
pub open spec fn is_dec_numeral(s: Seq<char>) -> bool {
    s.len() > 0 && forall|k: int| 0 <= k < s.len() ==> is_digit(#[trigger] s[k])
}

/// The number a JSON number text denotes as a `usize`, or nothing where it
/// is not a plain decimal numeral that fits.
pub open spec fn dec_usize(s: Seq<char>) -> Option<usize> {
    if is_dec_numeral(s) && dec_val(s) <= usize::MAX {
        Some(dec_val(s) as usize)
    } else {
        None
    }
}

/// A longer digit string never denotes a smaller value.
proof fn lemma_dec_val_prefix_le(s: Seq<char>, i: int)
    requires
        0 <= i <= s.len(),
    ensures
        dec_val(s.take(i)) <= dec_val(s),
    decreases s.len() - i,
{
    if i == s.len() {
        assert(s.take(i) =~= s);
    } else {
        lemma_dec_val_prefix_le(s, i + 1);
        assert(s.take(i + 1).drop_last() =~= s.take(i));
        assert(dec_val(s.take(i + 1)) == dec_val(s.take(i)) * 10 + digit_val(s.take(i + 1).last()));
        assert(dec_val(s.take(i)) <= dec_val(s.take(i)) * 10) by (nonlinear_arith);
    }
}

/// Reads a plain decimal numeral, rejecting any other shape and any value
/// that does not fit in `usize`.
pub fn parse_dec_usize(s: &str) -> (r: Option<usize>)
    ensures
        r == dec_usize(s@),
{
    let len = s.unicode_len();
    if len == 0 {
        return None;
    }
    let mut value: usize = 0;
    let mut i: usize = 0;
    while i < len
        invariant
            0 < len == s@.len(),
            i <= len,
            forall|k: int| 0 <= k < i ==> is_digit(#[trigger] s@[k]),
            value == dec_val(s@.take(i as int)),
        decreases len - i,
    {
        let c = s.get_char(i);
        let code = c as u32;
        if code < 48 || code > 57 {
            proof {
                assert(!is_digit(s@[i as int]));
                assert(!is_dec_numeral(s@));
            }
            return None;
        }
        let digit = (code - 48) as usize;
        proof {
            assert(s@.take(i + 1).drop_last() =~= s@.take(i as int));
            assert(s@.take(i + 1).last() == s@[i as int]);
        }
        if value > (usize::MAX - digit) / 10 {
            proof {
                assert(dec_val(s@.take(i + 1)) == value * 10 + digit);
                assert(value * 10 + digit > usize::MAX) by (nonlinear_arith)
                    requires
                        value > (usize::MAX - digit) / 10,
                        digit <= 9,
                ;
                lemma_dec_val_prefix_le(s@, i + 1);
            }
            return None;
        }
        proof {
            assert(value * 10 + digit <= usize::MAX) by (nonlinear_arith)
                requires
                    value <= (usize::MAX - digit) / 10,
                    digit <= 9,
            ;
            assert(dec_val(s@.take(i + 1)) == value * 10 + digit);
        }
        value = value * 10 + digit;
        i = i + 1;
    }
    proof {
        assert(s@.take(len as int) =~= s@);
        assert(is_dec_numeral(s@));
    }
    Some(value)
}

/// Looks a required string key up, cloning its characters.
fn get_req_str(j: &JsonValue, key: &str) -> (r: Result<String, Error>)
    ensures
        match r {
            Ok(s) => req_str_field(j@, key@) == Some(s@),
            Err(e) => req_str_field(j@, key@) is None && e is Json,
        },
{
    match j.get(key) {
        Some(v) => match v {
            JsonValue::Str(s) => Ok(s.clone()),
            _ => Err(field_error("expected a string under key: ", key)),
        },
        None => Err(field_error("missing key: ", key)),
    }
}

/// Looks an optional string key up; absent and `null` read as not given.
fn get_opt_str(j: &JsonValue, key: &str) -> (r: Result<Option<String>, Error>)
    ensures
        match r {
            Ok(s) => opt_str_field(j@, key@) == Some(s.deep_view()),
            Err(e) => opt_str_field(j@, key@) is None && e is Json,
        },
{
    match j.get(key) {
        Some(v) => match v {
            JsonValue::Null => Ok(None),
            JsonValue::Str(s) => Ok(Some(s.clone())),
            _ => Err(field_error("expected a string or null under key: ", key)),
        },
        None => Ok(None),
    }
}

/// Looks a boolean key up, reading `true` where the key is absent.
fn get_bool_default_true(j: &JsonValue, key: &str) -> (r: Result<bool, Error>)
    ensures
        match r {
            Ok(b) => bool_field_default_true(j@, key@) == Some(b),
            Err(e) => bool_field_default_true(j@, key@) is None && e is Json,
        },
{
    match j.get(key) {
        Some(v) => match v {
            JsonValue::Bool(b) => Ok(*b),
            _ => Err(field_error("expected a boolean under key: ", key)),
        },
        None => Ok(crate::default_true()),
    }
}

/// The declared-dependency schema: `name` is required; `rename` and `path`
/// are optional strings.
pub open spec fn spec_dependency(j: JsonModel) -> Option<DependencyView> {
    let name = req_str_field(j, "name"@);
    let rename = opt_str_field(j, "rename"@);
    let path = opt_str_field(j, "path"@);
    if name is Some && rename is Some && path is Some {
        Some(DependencyView { name: name->0, rename: rename->0, path: path->0 })
    } else {
        None
    }
}

/// Decodes every element of an array of declared dependencies.
pub open spec fn dep_elems(items: Seq<JsonModel>) -> Option<Seq<DependencyView>>
    decreases items.len(),
{
    if items.len() == 0 {
        Some(Seq::empty())
    } else {
        match spec_dependency(items.first()) {
            Some(head) => match dep_elems(items.drop_first()) {
                Some(rest) => Some(seq![head] + rest),
                None => None,
            },
            None => None,
        }
    }
}

impl Dependency {
    /// Reads one declared dependency from its JSON object.
    pub fn from_json(j: &JsonValue) -> (r: Result<Dependency, Error>)
        ensures
            match r {
                Ok(d) => spec_dependency(j@) == Some(d@),
                Err(e) => spec_dependency(j@) is None && e is Json,
            },
    {
        let name = match get_req_str(j, "name") {
            Ok(s) => s,
            Err(e) => return Err(e),
        };
        let rename = match get_opt_str(j, "rename") {
            Ok(s) => s,
            Err(e) => return Err(e),
        };
        let path = match get_opt_str(j, "path") {
            Ok(s) => s,
            Err(e) => return Err(e),
        };
        Ok(Dependency { name, rename, path })
    }
}

/// Reads an array of declared dependencies, in order.
fn decode_dep_vec(items: &Vec<JsonValue>) -> (r: Result<Vec<Dependency>, Error>)
    ensures
        match r {
            Ok(v) => dep_elems(arr_model(items@)) == Some(v.deep_view()),
            Err(e) => dep_elems(arr_model(items@)) is None && e is Json,
        },
{
    let ghost model = arr_model(items@);
    proof {
        lemma_arr_model(items@);
        assert(model.skip(0) =~= model);
    }
    let n = items.len();
    let mut out: Vec<Dependency> = Vec::new();
    let mut i: usize = 0;
    while i < n
        invariant
            i <= n,
            n == items@.len(),
            model == arr_model(items@),
            model.len() == n,
            forall|k: int| 0 <= k < n ==> #[trigger] model[k] == json_model(items@[k]),
            out.deep_view().len() == i,
            dep_elems(model) == (match dep_elems(model.skip(i as int)) {
                Some(rest) => Some(out.deep_view() + rest),
                None => None::<Seq<DependencyView>>,
            }),
        decreases n - i,
    {
        proof {
            assert(model.skip(i as int).first() == model[i as int]);
            assert(model.skip(i as int).drop_first() =~= model.skip(i + 1));
        }
        match Dependency::from_json(&items[i]) {
            Ok(d) => {
                let ghost prev = out.deep_view();
                let ghost dv = d@;
                out.push(d);
                proof {
                    assert(out.deep_view() =~= prev.push(dv));
                    if dep_elems(model.skip(i + 1)) is Some {
                        let rest = dep_elems(model.skip(i + 1))->0;
                        assert(prev + (seq![dv] + rest) =~= out.deep_view() + rest);
                    }
                }
            },
            Err(e) => {
                return Err(e);
            },
        }
        i = i + 1;
    }
    proof {
        assert(model.skip(n as int) =~= Seq::<JsonModel>::empty());
        assert(out.deep_view() + Seq::<DependencyView>::empty() =~= out.deep_view());
    }
    Ok(out)
}

/// The edition a value denotes: only the known edition strings are
/// accepted, so an unknown edition is noticed rather than guessed at.
pub open spec fn spec_edition_value(j: JsonModel) -> Option<Edition> {
    match j {
        JsonModel::Str(s) => if s == crate::spec_edition_wgsl() {
            Some(Edition::Wgsl)
        } else if s == crate::spec_edition_wesl() {
            Some(Edition::WeslUnstable2025)
        } else {
            None
        },
        _ => None,
    }
}

/// An edition key: absent means the default edition.
pub open spec fn edition_field_default(j: JsonModel, key: Seq<char>) -> Option<Edition> {
    match json_get(j, key) {
        None => Some(Edition::Wgsl),
        Some(v) => spec_edition_value(v),
    }
}

/// Looks an edition key up, reading the default edition where absent.
fn get_edition_default(j: &JsonValue, key: &str) -> (r: Result<Edition, Error>)
    ensures
        match r {
            Ok(e) => edition_field_default(j@, key@) == Some(e),
            Err(e) => edition_field_default(j@, key@) is None && e is Json,
        },
{
    match j.get(key) {
        Some(v) => match v {
            JsonValue::Str(s) => {
                if crate::json::str_eq(s.as_str(), "WGSL") {
                    Ok(Edition::Wgsl)
                } else if crate::json::str_eq(s.as_str(), "WESL") {
                    Ok(Edition::WeslUnstable2025)
                } else {
                    Err(field_error("unknown edition under key: ", key))
                }
            },
            _ => Err(field_error("expected an edition string under key: ", key)),
        },
        None => Ok(Edition::default()),
    }
}

/// The package manager a value denotes.
pub open spec fn spec_package_manager_value(j: JsonModel) -> Option<PackageManager> {
    match j {
        JsonModel::Str(s) => if s == "Npm"@ {
            Some(PackageManager::Npm)
        } else if s == "Cargo"@ {
            Some(PackageManager::Cargo)
        } else {
            None
        },
        _ => None,
    }
}

/// The version key of a package: a string that `semver` accepts.
pub open spec fn version_field(j: JsonModel) -> Option<VersionView> {
    match json_get(j, "version"@) {
        Some(JsonModel::Str(s)) => parsed_semver(s),
        _ => None,
    }
}

/// An array-of-strings key where absence means the empty list.
pub open spec fn str_arr_field_default(j: JsonModel, key: Seq<char>) -> Option<Seq<Seq<char>>> {
    match json_get(j, key) {
        None => Some(Seq::empty()),
        Some(JsonModel::Arr(items)) => str_elems(items),
        Some(_) => None,
    }
}

/// Looks an array-of-strings key up, reading the empty list where absent.
fn get_str_arr_default(j: &JsonValue, key: &str) -> (r: Result<Vec<String>, Error>)
    ensures
        match r {
            Ok(v) => str_arr_field_default(j@, key@) == Some(v.deep_view()),
            Err(e) => str_arr_field_default(j@, key@) is None && e is Json,
        },
{
    match j.get(key) {
        Some(v) => match v {
            JsonValue::Arr(items) => decode_str_vec(items, key),
            _ => Err(field_error("expected an array under key: ", key)),
        },
        None => {
            let out: Vec<String> = Vec::new();
            proof {
                assert(out.deep_view() =~= Seq::<Seq<char>>::empty());
            }
            Ok(out)
        },
    }
}

/// The target schema: `name` and `src_path` are required; the
/// `required-features` list defaults to empty; the edition defaults; and
/// the three boolean flags default to `true`, for tools too old to emit
/// them.
pub open spec fn spec_target(j: JsonModel) -> Option<crate::TargetView> {
    let name = req_str_field(j, "name"@);
    let required_features = str_arr_field_default(j, "required-features"@);
    let src_path = req_str_field(j, "src_path"@);
    let edition = edition_field_default(j, "edition"@);
    let doctest = bool_field_default_true(j, "doctest"@);
    let test = bool_field_default_true(j, "test"@);
    let doc = bool_field_default_true(j, "doc"@);
    if name is Some && required_features is Some && src_path is Some && edition is Some
        && doctest is Some && test is Some && doc is Some {
        Some(
            crate::TargetView {
                name: name->0,
                required_features: required_features->0,
                src_path: src_path->0,
                edition: edition->0,
                doctest: doctest->0,
                test: test->0,
                doc: doc->0,
            },
        )
    } else {
        None
    }
}

impl crate::Target {
    /// Reads one target from its JSON object.
    pub fn from_json(j: &JsonValue) -> (r: Result<crate::Target, Error>)
        ensures
            match r {
                Ok(t) => spec_target(j@) == Some(t@),
                Err(e) => spec_target(j@) is None && e is Json,
            },
    {
        let name = match get_req_str(j, "name") {
            Ok(s) => s,
            Err(e) => return Err(e),
        };
        let required_features = match get_str_arr_default(j, "required-features") {
            Ok(v) => v,
            Err(e) => return Err(e),
        };
        let src_path = match get_req_str(j, "src_path") {
            Ok(s) => s,
            Err(e) => return Err(e),
        };
        let edition = match get_edition_default(j, "edition") {
            Ok(v) => v,
            Err(e) => return Err(e),
        };
        let doctest = match get_bool_default_true(j, "doctest") {
            Ok(b) => b,
            Err(e) => return Err(e),
        };
        let test = match get_bool_default_true(j, "test") {
            Ok(b) => b,
            Err(e) => return Err(e),
        };
        let doc = match get_bool_default_true(j, "doc") {
            Ok(b) => b,
            Err(e) => return Err(e),
        };
        Ok(crate::Target { name, required_features, src_path, edition, doctest, test, doc })
    }
}

/// The node-dependency schema: an effective name and the id of the package
/// that satisfies it, both required.
pub open spec fn spec_node_dependency(j: JsonModel) -> Option<crate::NodeDependencyView> {
    let name = req_str_field(j, "name"@);
    let pkg = req_str_field(j, "pkg"@);
    if name is Some && pkg is Some {
        Some(crate::NodeDependencyView { name: name->0, pkg: pkg->0 })
    } else {
        None
    }
}

/// Decodes every element of an array of node dependencies.
pub open spec fn nodedep_elems(items: Seq<JsonModel>) -> Option<Seq<crate::NodeDependencyView>>
    decreases items.len(),
{
    if items.len() == 0 {
        Some(Seq::empty())
    } else {
        match spec_node_dependency(items.first()) {
            Some(head) => match nodedep_elems(items.drop_first()) {
                Some(rest) => Some(seq![head] + rest),
                None => None,
            },
            None => None,
        }
    }
}

impl crate::NodeDependency {
    /// Reads one node dependency from its JSON object.
    pub fn from_json(j: &JsonValue) -> (r: Result<crate::NodeDependency, Error>)
        ensures
            match r {
                Ok(d) => spec_node_dependency(j@) == Some(d@),
                Err(e) => spec_node_dependency(j@) is None && e is Json,
            },
    {
        let name = match get_req_str(j, "name") {
            Ok(s) => s,
            Err(e) => return Err(e),
        };
        let pkg = match get_req_str(j, "pkg") {
            Ok(s) => s,
            Err(e) => return Err(e),
        };
        Ok(crate::NodeDependency { name, pkg: crate::PackageId { repr: pkg } })
    }
}

/// Reads an array of node dependencies, in order.
fn decode_nodedep_vec(items: &Vec<JsonValue>) -> (r: Result<Vec<crate::NodeDependency>, Error>)
    ensures
        match r {
            Ok(v) => nodedep_elems(arr_model(items@)) == Some(v.deep_view()),
            Err(e) => nodedep_elems(arr_model(items@)) is None && e is Json,
        },
{
    let ghost model = arr_model(items@);
    proof {
        lemma_arr_model(items@);
        assert(model.skip(0) =~= model);
    }
    let n = items.len();
    let mut out: Vec<crate::NodeDependency> = Vec::new();
    let mut i: usize = 0;
    while i < n
        invariant
            i <= n,
            n == items@.len(),
            model == arr_model(items@),
            model.len() == n,
            forall|k: int| 0 <= k < n ==> #[trigger] model[k] == json_model(items@[k]),
            out.deep_view().len() == i,
            nodedep_elems(model) == (match nodedep_elems(model.skip(i as int)) {
                Some(rest) => Some(out.deep_view() + rest),
                None => None::<Seq<crate::NodeDependencyView>>,
            }),
        decreases n - i,
    {
        proof {
            assert(model.skip(i as int).first() == model[i as int]);
            assert(model.skip(i as int).drop_first() =~= model.skip(i + 1));
        }
        match crate::NodeDependency::from_json(&items[i]) {
            Ok(d) => {
                let ghost prev = out.deep_view();
                let ghost dv = d@;
                out.push(d);
                proof {
                    assert(out.deep_view() =~= prev.push(dv));
                    if nodedep_elems(model.skip(i + 1)) is Some {
                        let rest = nodedep_elems(model.skip(i + 1))->0;
                        assert(prev + (seq![dv] + rest) =~= out.deep_view() + rest);
                    }
                }
            },
            Err(e) => {
                return Err(e);
            },
        }
        i = i + 1;
    }
    proof {
        assert(model.skip(n as int) =~= Seq::<JsonModel>::empty());
        assert(out.deep_view() + Seq::<crate::NodeDependencyView>::empty() =~= out.deep_view());
    }
    Ok(out)
}

/// The node schema: `id` and the flat `dependencies` id list are required;
/// `renamed_dependencies` defaults to the empty list where absent, for
/// tools that do not report renames.
pub open spec fn spec_node(j: JsonModel) -> Option<crate::NodeView> {
    let id = req_str_field(j, "id"@);
    let renamed_dependencies = (match json_get(j, "renamed_dependencies"@) {
        None => Some(Seq::<crate::NodeDependencyView>::empty()),
        Some(JsonModel::Arr(items)) => nodedep_elems(items),
        Some(_) => None,
    });
    let dependencies = (match json_get(j, "dependencies"@) {
        Some(JsonModel::Arr(items)) => str_elems(items),
        _ => None,
    });
    if id is Some && renamed_dependencies is Some && dependencies is Some {
        Some(
            crate::NodeView {
                id: id->0,
                renamed_dependencies: renamed_dependencies->0,
                dependencies: dependencies->0,
            },
        )
    } else {
        None
    }
}

/// Decodes every element of an array of nodes.
pub open spec fn node_elems(items: Seq<JsonModel>) -> Option<Seq<crate::NodeView>>
    decreases items.len(),
{
    if items.len() == 0 {
        Some(Seq::empty())
    } else {
        match spec_node(items.first()) {
            Some(head) => match node_elems(items.drop_first()) {
                Some(rest) => Some(seq![head] + rest),
                None => None,
            },
            None => None,
        }
    }
}

impl crate::Node {
    /// Reads one resolved node from its JSON object.
    pub fn from_json(j: &JsonValue) -> (r: Result<crate::Node, Error>)
        ensures
            match r {
                Ok(n) => spec_node(j@) == Some(n@),
                Err(e) => spec_node(j@) is None && e is Json,
            },
    {
        let id = match get_req_str(j, "id") {
            Ok(s) => s,
            Err(e) => return Err(e),
        };
        let renamed_dependencies = match j.get("renamed_dependencies") {
            Some(v) => match v {
                JsonValue::Arr(items) => match decode_nodedep_vec(items) {
                    Ok(ds) => ds,
                    Err(e) => return Err(e),
                },
                _ => return Err(
                    field_error("expected an array under key: ", "renamed_dependencies"),
                ),
            },
            None => {
                let empty: Vec<crate::NodeDependency> = Vec::new();
                proof {
                    assert(empty.deep_view() =~= Seq::<crate::NodeDependencyView>::empty());
                }
                empty
            },
        };
        let dependencies = match j.get("dependencies") {
            Some(v) => match v {
                JsonValue::Arr(items) => match decode_id_vec(items, "dependencies") {
                    Ok(ds) => ds,
                    Err(e) => return Err(e),
                },
                _ => return Err(field_error("expected an array under key: ", "dependencies")),
            },
            None => return Err(field_error("missing key: ", "dependencies")),
        };
        Ok(
            crate::Node {
                id: crate::PackageId { repr: id },
                renamed_dependencies,
                dependencies,
            },
        )
    }
}

/// Reads an array of nodes, in order.
fn decode_node_vec(items: &Vec<JsonValue>) -> (r: Result<Vec<crate::Node>, Error>)
    ensures
        match r {
            Ok(v) => node_elems(arr_model(items@)) == Some(v.deep_view()),
            Err(e) => node_elems(arr_model(items@)) is None && e is Json,
        },
{
    let ghost model = arr_model(items@);
    proof {
        lemma_arr_model(items@);
        assert(model.skip(0) =~= model);
    }
    let n = items.len();
    let mut out: Vec<crate::Node> = Vec::new();
    let mut i: usize = 0;
    while i < n
        invariant
            i <= n,
            n == items@.len(),
            model == arr_model(items@),
            model.len() == n,
            forall|k: int| 0 <= k < n ==> #[trigger] model[k] == json_model(items@[k]),
            out.deep_view().len() == i,
            node_elems(model) == (match node_elems(model.skip(i as int)) {
                Some(rest) => Some(out.deep_view() + rest),
                None => None::<Seq<crate::NodeView>>,
            }),
        decreases n - i,
    {
        proof {
            assert(model.skip(i as int).first() == model[i as int]);
            assert(model.skip(i as int).drop_first() =~= model.skip(i + 1));
        }
        match crate::Node::from_json(&items[i]) {
            Ok(d) => {
                let ghost prev = out.deep_view();
                let ghost dv = d@;
                out.push(d);
                proof {
                    assert(out.deep_view() =~= prev.push(dv));
                    if node_elems(model.skip(i + 1)) is Some {
                        let rest = node_elems(model.skip(i + 1))->0;
                        assert(prev + (seq![dv] + rest) =~= out.deep_view() + rest);
                    }
                }
            },
            Err(e) => {
                return Err(e);
            },
        }
        i = i + 1;
    }
    proof {
        assert(model.skip(n as int) =~= Seq::<JsonModel>::empty());
        assert(out.deep_view() + Seq::<crate::NodeView>::empty() =~= out.deep_view());
    }
    Ok(out)
}

/// The resolve schema: `nodes` is required; `root` is an optional id.
pub open spec fn spec_resolve(j: JsonModel) -> Option<crate::ResolveView> {
    let nodes = (match json_get(j, "nodes"@) {
        Some(JsonModel::Arr(items)) => node_elems(items),
        _ => None,
    });
    let root = opt_str_field(j, "root"@);
    if nodes is Some && root is Some {
        Some(crate::ResolveView { nodes: nodes->0, root: root->0 })
    } else {
        None
    }
}

impl crate::Resolve {
    /// Reads one dependency graph from its JSON object.
    pub fn from_json(j: &JsonValue) -> (r: Result<crate::Resolve, Error>)
        ensures
            match r {
                Ok(g) => spec_resolve(j@) == Some(g@),
                Err(e) => spec_resolve(j@) is None && e is Json,
            },
    {
        let nodes = match j.get("nodes") {
            Some(v) => match v {
                JsonValue::Arr(items) => match decode_node_vec(items) {
                    Ok(ns) => ns,
                    Err(e) => return Err(e),
                },
                _ => return Err(field_error("expected an array under key: ", "nodes")),
            },
            None => return Err(field_error("missing key: ", "nodes")),
        };
        let root = match get_opt_str(j, "root") {
            Ok(s) => s,
            Err(e) => return Err(e),
        };
        let root_id = match root {
            Some(s) => Some(crate::PackageId { repr: s }),
            None => None,
        };
        Ok(crate::Resolve { nodes, root: root_id })
    }
}

/// Copies a JSON tree, node by node.
pub(crate) fn clone_json(j: &JsonValue) -> (r: JsonValue)
    ensures
        r@ == j@,
    decreases *j,
{
    match j {
        JsonValue::Null => JsonValue::Null,
        JsonValue::Bool(b) => JsonValue::Bool(*b),
        JsonValue::Num(s) => JsonValue::Num(s.clone()),
        JsonValue::Str(s) => JsonValue::Str(s.clone()),
        JsonValue::Arr(items) => {
            proof {
                lemma_arr_model(items@);
            }
            let n = items.len();
            let mut out: Vec<JsonValue> = Vec::new();
            let mut i: usize = 0;
            while i < n
                invariant
                    i <= n,
                    n == items@.len(),
                    *j == JsonValue::Arr(*items),
                    out@.len() == i,
                    forall|k: int| 0 <= k < i ==> (#[trigger] out@[k])@ == items@[k]@,
                decreases n - i,
            {
                proof {
                    assert(*items == j->Arr_0);
                    assert(decreases_to!(*j => j->Arr_0));
                    assert(decreases_to!(j->Arr_0 => j->Arr_0@));
                    assert(decreases_to!(j->Arr_0@ => j->Arr_0@[i as int]));
                    assert(decreases_to!(*j => items@[i as int]));
                }
                let c = clone_json(&items[i]);
                out.push(c);
                i = i + 1;
            }
            proof {
                lemma_arr_model(out@);
                assert(arr_model(out@) =~= arr_model(items@));
            }
            JsonValue::Arr(out)
        },
        JsonValue::Obj(fields) => {
            proof {
                crate::json::lemma_obj_model(fields@);
            }
            let n = fields.len();
            let mut out: Vec<(String, JsonValue)> = Vec::new();
            let mut i: usize = 0;
            while i < n
                invariant
                    i <= n,
                    n == fields@.len(),
                    *j == JsonValue::Obj(*fields),
                    out@.len() == i,
                    forall|k: int|
                        0 <= k < i ==> (#[trigger] out@[k]).0@ == fields@[k].0@ && out@[k].1@
                            == fields@[k].1@,
                decreases n - i,
            {
                proof {
                    assert(*fields == j->Obj_0);
                    assert(decreases_to!(*j => j->Obj_0));
                    assert(decreases_to!(j->Obj_0 => j->Obj_0@));
                    assert(decreases_to!(j->Obj_0@ => j->Obj_0@[i as int]));
                    assert(decreases_to!(j->Obj_0@[i as int] => j->Obj_0@[i as int].1));
                    assert(decreases_to!(*j => fields@[i as int].1));
                }
                let key = fields[i].0.clone();
                let val = clone_json(&fields[i].1);
                out.push((key, val));
                i = i + 1;
            }
            proof {
                crate::json::lemma_obj_model(out@);
                assert(crate::json::obj_model(out@) =~= crate::json::obj_model(fields@));
            }
            JsonValue::Obj(out)
        },
    }
}

/// Decodes every element of an array of packages.
pub open spec fn package_elems(items: Seq<JsonModel>) -> Option<Seq<crate::PackageView>>
    decreases items.len(),
{
    if items.len() == 0 {
        Some(Seq::empty())
    } else {
        match spec_package(items.first()) {
            Some(head) => match package_elems(items.drop_first()) {
                Some(rest) => Some(seq![head] + rest),
                None => None,
            },
            None => None,
        }
    }
}

/// The package schema: `name`, `version`, `id`, `dependencies` and
/// `manifest_path` are required; the descriptive string fields are
/// optional; `authors`, `categories` and `keywords` default to empty
/// lists; the edition defaults; and the free-form `metadata` payload
/// defaults to `null`.
pub open spec fn spec_package(j: JsonModel) -> Option<crate::PackageView> {
    let name = req_str_field(j, "name"@);
    let version = version_field(j);
    let authors = str_arr_field_default(j, "authors"@);
    let id = req_str_field(j, "id"@);
    let description = opt_str_field(j, "description"@);
    let dependencies = (match json_get(j, "dependencies"@) {
        Some(JsonModel::Arr(items)) => dep_elems(items),
        _ => None,
    });
    let license = opt_str_field(j, "license"@);
    let license_file = opt_str_field(j, "license_file"@);
    let manifest_path = req_str_field(j, "manifest_path"@);
    let categories = str_arr_field_default(j, "categories"@);
    let keywords = str_arr_field_default(j, "keywords"@);
    let readme = opt_str_field(j, "readme"@);
    let repository = opt_str_field(j, "repository"@);
    let homepage = opt_str_field(j, "homepage"@);
    let documentation = opt_str_field(j, "documentation"@);
    let edition = edition_field_default(j, "edition"@);
    let metadata = (match json_get(j, "metadata"@) {
        Some(v) => v,
        None => JsonModel::Null,
    });
    if name is Some && version is Some && authors is Some && id is Some && description is Some
        && dependencies is Some && license is Some && license_file is Some
        && manifest_path is Some && categories is Some && keywords is Some && readme is Some
        && repository is Some && homepage is Some && documentation is Some && edition is Some {
        Some(
            crate::PackageView {
                name: name->0,
                version: version->0,
                authors: authors->0,
                id: id->0,
                description: description->0,
                dependencies: dependencies->0,
                license: license->0,
                license_file: license_file->0,
                manifest_path: manifest_path->0,
                categories: categories->0,
                keywords: keywords->0,
                readme: readme->0,
                repository: repository->0,
                homepage: homepage->0,
                documentation: documentation->0,
                edition: edition->0,
                metadata,
            },
        )
    } else {
        None
    }
}

impl crate::Package {
    /// Reads one package from its JSON object.
    pub fn from_json(j: &JsonValue) -> (r: Result<crate::Package, Error>)
        ensures
            match r {
                Ok(p) => spec_package(j@) == Some(p@),
                Err(e) => spec_package(j@) is None && e is Json,
            },
    {
        let name = match get_req_str(j, "name") {
            Ok(s) => s,
            Err(e) => return Err(e),
        };
        let version = match j.get("version") {
            Some(v) => match v {
                JsonValue::Str(s) => match parse_semver(s.as_str()) {
                    Some(parsed) => parsed,
                    None => return Err(
                        field_error("not a semantic version under key: ", "version"),
                    ),
                },
                _ => return Err(field_error("expected a string under key: ", "version")),
            },
            None => return Err(field_error("missing key: ", "version")),
        };
        let authors = match get_str_arr_default(j, "authors") {
            Ok(v) => v,
            Err(e) => return Err(e),
        };
        let id = match get_req_str(j, "id") {
            Ok(s) => s,
            Err(e) => return Err(e),
        };
        let description = match get_opt_str(j, "description") {
            Ok(v) => v,
            Err(e) => return Err(e),
        };
        let dependencies = match j.get("dependencies") {
            Some(v) => match v {
                JsonValue::Arr(items) => match decode_dep_vec(items) {
                    Ok(ds) => ds,
                    Err(e) => return Err(e),
                },
                _ => return Err(field_error("expected an array under key: ", "dependencies")),
            },
            None => return Err(field_error("missing key: ", "dependencies")),
        };
        let license = match get_opt_str(j, "license") {
            Ok(v) => v,
            Err(e) => return Err(e),
        };
        let license_file = match get_opt_str(j, "license_file") {
            Ok(v) => v,
            Err(e) => return Err(e),
        };
        let manifest_path = match get_req_str(j, "manifest_path") {
            Ok(s) => s,
            Err(e) => return Err(e),
        };
        let categories = match get_str_arr_default(j, "categories") {
            Ok(v) => v,
            Err(e) => return Err(e),
        };
        let keywords = match get_str_arr_default(j, "keywords") {
            Ok(v) => v,
            Err(e) => return Err(e),
        };
        let readme = match get_opt_str(j, "readme") {
            Ok(v) => v,
            Err(e) => return Err(e),
        };
        let repository = match get_opt_str(j, "repository") {
            Ok(v) => v,
            Err(e) => return Err(e),
        };
        let homepage = match get_opt_str(j, "homepage") {
            Ok(v) => v,
            Err(e) => return Err(e),
        };
        let documentation = match get_opt_str(j, "documentation") {
            Ok(v) => v,
            Err(e) => return Err(e),
        };
        let edition = match get_edition_default(j, "edition") {
            Ok(v) => v,
            Err(e) => return Err(e),
        };
        let metadata = match j.get("metadata") {
            Some(v) => clone_json(v),
            None => JsonValue::Null,
        };
        Ok(
            crate::Package {
                name,
                version,
                authors,
                id: crate::PackageId { repr: id },
                description,
                dependencies,
                license,
                license_file,
                manifest_path,
                categories,
                keywords,
                readme,
                repository,
                homepage,
                documentation,
                edition,
                metadata,
            },
        )
    }
}

/// Reads an array of packages, in order.
fn decode_package_vec(items: &Vec<JsonValue>) -> (r: Result<Vec<crate::Package>, Error>)
    ensures
        match r {
            Ok(v) => package_elems(arr_model(items@)) == Some(v.deep_view()),
            Err(e) => package_elems(arr_model(items@)) is None && e is Json,
        },
{
    let ghost model = arr_model(items@);
    proof {
        lemma_arr_model(items@);
        assert(model.skip(0) =~= model);
    }
    let n = items.len();
    let mut out: Vec<crate::Package> = Vec::new();
    let mut i: usize = 0;
    while i < n
        invariant
            i <= n,
            n == items@.len(),
            model == arr_model(items@),
            model.len() == n,
            forall|k: int| 0 <= k < n ==> #[trigger] model[k] == json_model(items@[k]),
            out.deep_view().len() == i,
            package_elems(model) == (match package_elems(model.skip(i as int)) {
                Some(rest) => Some(out.deep_view() + rest),
                None => None::<Seq<crate::PackageView>>,
            }),
        decreases n - i,
    {
        proof {
            assert(model.skip(i as int).first() == model[i as int]);
            assert(model.skip(i as int).drop_first() =~= model.skip(i + 1));
        }
        match crate::Package::from_json(&items[i]) {
            Ok(d) => {
                let ghost prev = out.deep_view();
                let ghost dv = d@;
                out.push(d);
                proof {
                    assert(out.deep_view() =~= prev.push(dv));
                    if package_elems(model.skip(i + 1)) is Some {
                        let rest = package_elems(model.skip(i + 1))->0;
                        assert(prev + (seq![dv] + rest) =~= out.deep_view() + rest);
                    }
                }
            },
            Err(e) => {
                return Err(e);
            },
        }
        i = i + 1;
    }
    proof {
        assert(model.skip(n as int) =~= Seq::<JsonModel>::empty());
        assert(out.deep_view() + Seq::<crate::PackageView>::empty() =~= out.deep_view());
    }
    Ok(out)
}

/// The metadata schema, the root of the document: the package manager, the
/// package list, the target directory, the format version and the root
/// package directory are required; `resolve` is optional, with `null` and
/// absence both meaning that no graph was computed.
pub open spec fn spec_metadata(j: JsonModel) -> Option<crate::MetadataView> {
    let package_manager = (match json_get(j, "package_manager"@) {
        Some(v) => spec_package_manager_value(v),
        None => None,
    });
    let packages = (match json_get(j, "packages"@) {
        Some(JsonModel::Arr(items)) => package_elems(items),
        _ => None,
    });
    let resolve = (match json_get(j, "resolve"@) {
        None => Some(None),
        Some(JsonModel::Null) => Some(None),
        Some(v) => match spec_resolve(v) {
            Some(g) => Some(Some(g)),
            None => None,
        },
    });
    let target_directory = req_str_field(j, "target_directory"@);
    let version = (match json_get(j, "version"@) {
        Some(JsonModel::Num(s)) => dec_usize(s),
        _ => None,
    });
    let root_package_directory = req_str_field(j, "root_package_directory"@);
    if package_manager is Some && packages is Some && resolve is Some && target_directory is Some
        && version is Some && root_package_directory is Some {
        Some(
            crate::MetadataView {
                package_manager: package_manager->0,
                packages: packages->0,
                resolve: resolve->0,
                target_directory: target_directory->0,
                version: version->0,
                root_package_directory: root_package_directory->0,
            },
        )
    } else {
        None
    }
}

impl crate::Metadata {
    /// Reads a whole metadata document from its JSON object.
    pub fn from_json(j: &JsonValue) -> (r: Result<crate::Metadata, Error>)
        ensures
            match r {
                Ok(m) => spec_metadata(j@) == Some(m@),
                Err(e) => spec_metadata(j@) is None && e is Json,
            },
    {
        let package_manager = match j.get("package_manager") {
            Some(v) => match v {
                JsonValue::Str(s) => {
                    if crate::json::str_eq(s.as_str(), "Npm") {
                        PackageManager::Npm
                    } else if crate::json::str_eq(s.as_str(), "Cargo") {
                        PackageManager::Cargo
                    } else {
                        return Err(
                            field_error("unknown package manager under key: ", "package_manager"),
                        );
                    }
                },
                _ => return Err(field_error("expected a string under key: ", "package_manager")),
            },
            None => return Err(field_error("missing key: ", "package_manager")),
        };
        let packages = match j.get("packages") {
            Some(v) => match v {
                JsonValue::Arr(items) => match decode_package_vec(items) {
                    Ok(ps) => ps,
                    Err(e) => return Err(e),
                },
                _ => return Err(field_error("expected an array under key: ", "packages")),
            },
            None => return Err(field_error("missing key: ", "packages")),
        };
        let resolve = match j.get("resolve") {
            Some(v) => match v {
                JsonValue::Null => None,
                _ => match crate::Resolve::from_json(v) {
                    Ok(g) => Some(g),
                    Err(e) => return Err(e),
                },
            },
            None => None,
        };
        let target_directory = match get_req_str(j, "target_directory") {
            Ok(s) => s,
            Err(e) => return Err(e),
        };
        let version = match j.get("version") {
            Some(v) => match v {
                JsonValue::Num(s) => match parse_dec_usize(s.as_str()) {
                    Some(n) => n,
                    None => return Err(
                        field_error("not an unsigned integer under key: ", "version"),
                    ),
                },
                _ => return Err(field_error("expected a number under key: ", "version")),
            },
            None => return Err(field_error("missing key: ", "version")),
        };
        let root_package_directory = match get_req_str(j, "root_package_directory") {
            Ok(s) => s,
            Err(e) => return Err(e),
        };
        Ok(
            crate::Metadata {
                package_manager,
                packages,
                resolve,
                target_directory,
                version,
                root_package_directory,
            },
        )
    }
}

} // verus!
