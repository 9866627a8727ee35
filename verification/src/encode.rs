//! Encoding the metadata model back into a JSON tree.
//!
//! The encoder is the schema layer read in the other direction, and its
//! contract is the round trip: decoding what it produces yields the value
//! it was given.  The one caveat is the version field, which is rendered
//! to text and read back through `semver`; the round trip therefore holds
//! for values whose version survives that re-parse, which is every version
//! that `semver` itself produced.
use vstd::prelude::*;
use vstd::string::StrSliceExecFns;
use vstd::string::StringExecFns;

use crate::decode::dec_val;
use crate::decode::digit_val;
use crate::decode::is_dec_numeral;
use crate::decode::is_digit;
use crate::decode::parsed_semver;
use crate::json::JsonModel;
use crate::json::JsonValue;
use crate::Version;
use crate::VersionView;

verus! {

/// The character of one decimal digit.
pub open spec fn digit_char(d: nat) -> char {
    if d == 0 {
        '0'
    } else if d == 1 {
        '1'
    } else if d == 2 {
        '2'
    } else if d == 3 {
        '3'
    } else if d == 4 {
        '4'
    } else if d == 5 {
        '5'
    } else if d == 6 {
        '6'
    } else if d == 7 {
        '7'
    } else if d == 8 {
        '8'
    } else {
        '9'
    }
}

/// The decimal text of `n`, most significant digit first.
pub open spec fn spec_dec_str(n: nat) -> Seq<char>
    decreases n,
{
    if n < 10 {
        seq![digit_char(n)]
    } else {
        spec_dec_str(n / 10).push(digit_char(n % 10))
    }
}

/// The decimal text of `n` is a numeral and denotes `n`.
pub proof fn lemma_dec_str_value(n: nat)
    ensures
        is_dec_numeral(spec_dec_str(n)),
        dec_val(spec_dec_str(n)) == n,
    decreases n,
{
    if n < 10 {
        let s = spec_dec_str(n);
        assert(s.len() == 1);
        assert(is_digit(s[0]));
        assert(s.drop_last() =~= Seq::<char>::empty());
        assert(dec_val(s) == dec_val(s.drop_last()) * 10 + digit_val(s.last()));
        assert(digit_val(digit_char(n)) == n);
    } else {
        lemma_dec_str_value(n / 10);
        let s = spec_dec_str(n / 10);
        let d = (n % 10) as nat;
        assert(spec_dec_str(n) == s.push(digit_char(d)));
        assert(s.push(digit_char(d)).drop_last() =~= s);
        assert(s.push(digit_char(d)).last() == digit_char(d));
        assert(digit_val(digit_char(d)) == d);
        assert(dec_val(s.push(digit_char(d))) == n) by {
            assert(dec_val(s.push(digit_char(d))) == dec_val(s) * 10 + d);
            assert((n / 10) * 10 + n % 10 == n) by (nonlinear_arith);
        }
        assert forall|k: int| 0 <= k < s.push(digit_char(d)).len() implies is_digit(
            #[trigger] s.push(digit_char(d))[k],
        ) by {
            if k < s.len() {
                assert(s.push(digit_char(d))[k] == s[k]);
            }
        }
    }
}

/// One decimal digit as text.
fn digit_str(d: u64) -> (r: &'static str)
    requires
        d < 10,
    ensures
        r@ == seq![digit_char(d as nat)],
{
    proof {
        reveal_strlit("0");
        reveal_strlit("1");
        reveal_strlit("2");
        reveal_strlit("3");
        reveal_strlit("4");
        reveal_strlit("5");
        reveal_strlit("6");
        reveal_strlit("7");
        reveal_strlit("8");
        reveal_strlit("9");
    }
    match d {
        0 => "0",
        1 => "1",
        2 => "2",
        3 => "3",
        4 => "4",
        5 => "5",
        6 => "6",
        7 => "7",
        8 => "8",
        _ => "9",
    }
}

/// Renders `n` as decimal text.
pub fn u64_to_string(n: u64) -> (r: String)
    ensures
        r@ == spec_dec_str(n as nat),
    decreases n,
{
    if n < 10 {
        String::from_str(digit_str(n))
    } else {
        proof {
            assert(n / 10 < n) by (nonlinear_arith)
                requires
                    n >= 10,
            ;
        }
        let mut s = u64_to_string(n / 10);
        s.append(digit_str(n % 10));
        proof {
            assert(s@ =~= spec_dec_str(n as nat));
        }
        s
    }
}

/// The canonical text of a version: the three numeric components joined
/// with dots, then the pre-release after a hyphen and the build metadata
/// after a plus sign, each only where nonempty.
pub open spec fn spec_render_semver(v: VersionView) -> Seq<char> {
    spec_dec_str(v.major as nat) + seq!['.'] + spec_dec_str(v.minor as nat) + seq!['.']
        + spec_dec_str(v.patch as nat) + (if v.pre.len() > 0 {
        seq!['-'] + v.pre
    } else {
        Seq::empty()
    }) + (if v.build.len() > 0 {
        seq!['+'] + v.build
    } else {
        Seq::empty()
    })
}

/// Renders a version as its canonical text.
pub fn render_semver(v: &Version) -> (r: String)
    ensures
        r@ == spec_render_semver(v@),
{
    proof {
        reveal_strlit(".");
        reveal_strlit("-");
        reveal_strlit("+");
    }
    let mut s = u64_to_string(v.major);
    s.append(".");
    let minor = u64_to_string(v.minor);
    s.append(minor.as_str());
    s.append(".");
    let patch = u64_to_string(v.patch);
    s.append(patch.as_str());
    if !v.pre.as_str().is_empty() {
        s.append("-");
        s.append(v.pre.as_str());
    }
    if !v.build.as_str().is_empty() {
        s.append("+");
        s.append(v.build.as_str());
    }
    proof {
        assert(s@ =~= spec_render_semver(v@));
    }
    s
}

/// Whether re-parsing a version's canonical text gives the version back.
/// This holds of every version that came out of `semver`'s own parser,
/// but not, say, of one whose pre-release field holds a space.
pub open spec fn version_reparses(v: VersionView) -> bool {
    parsed_semver(spec_render_semver(v)) == Some(v)
}

/// Whether every package version in a metadata value re-parses.
pub open spec fn metadata_reparses(m: crate::MetadataView) -> bool {
    forall|i: int|
        0 <= i < m.packages.len() ==> version_reparses((#[trigger] m.packages[i]).version)
}

/// Appending an element to an array appends its decoding, where both
/// decode.
proof fn lemma_str_elems_push(s: Seq<JsonModel>, x: JsonModel)
    ensures
        crate::decode::str_elems(s.push(x)) == (if crate::decode::str_elems(s) is Some
            && crate::decode::spec_str_elem(x) is Some {
            Some(crate::decode::str_elems(s)->0.push(crate::decode::spec_str_elem(x)->0))
        } else {
            None::<Seq<Seq<char>>>
        }),
    decreases s.len(),
{
    if s.len() == 0 {
        assert(s.push(x).first() == x);
        assert(s.push(x).drop_first() =~= Seq::<JsonModel>::empty());
        assert(crate::decode::str_elems(Seq::<JsonModel>::empty()) == Some(
            Seq::<Seq<char>>::empty(),
        ));
        if crate::decode::spec_str_elem(x) is Some {
            assert(seq![crate::decode::spec_str_elem(x)->0] + Seq::<Seq<char>>::empty()
                =~= Seq::<Seq<char>>::empty().push(crate::decode::spec_str_elem(x)->0));
        }
    } else {
        assert(s.push(x).first() == s.first());
        assert(s.push(x).drop_first() =~= s.drop_first().push(x));
        lemma_str_elems_push(s.drop_first(), x);
        if crate::decode::str_elems(s) is Some && crate::decode::spec_str_elem(x) is Some {
            let h = crate::decode::spec_str_elem(s.first())->0;
            let rest = crate::decode::str_elems(s.drop_first())->0;
            let xe = crate::decode::spec_str_elem(x)->0;
            assert(seq![h] + rest.push(xe) =~= (seq![h] + rest).push(xe));
        }
    }
}

/// As [`lemma_str_elems_push`], for declared dependencies.
proof fn lemma_dep_elems_push(s: Seq<JsonModel>, x: JsonModel)
    ensures
        crate::decode::dep_elems(s.push(x)) == (if crate::decode::dep_elems(s) is Some
            && crate::decode::spec_dependency(x) is Some {
            Some(crate::decode::dep_elems(s)->0.push(crate::decode::spec_dependency(x)->0))
        } else {
            None::<Seq<crate::DependencyView>>
        }),
    decreases s.len(),
{
    if s.len() == 0 {
        assert(s.push(x).first() == x);
        assert(s.push(x).drop_first() =~= Seq::<JsonModel>::empty());
        assert(crate::decode::dep_elems(Seq::<JsonModel>::empty()) == Some(
            Seq::<crate::DependencyView>::empty(),
        ));
        if crate::decode::spec_dependency(x) is Some {
            assert(seq![crate::decode::spec_dependency(x)->0]
                + Seq::<crate::DependencyView>::empty()
                =~= Seq::<crate::DependencyView>::empty().push(
                crate::decode::spec_dependency(x)->0,
            ));
        }
    } else {
        assert(s.push(x).first() == s.first());
        assert(s.push(x).drop_first() =~= s.drop_first().push(x));
        lemma_dep_elems_push(s.drop_first(), x);
        if crate::decode::dep_elems(s) is Some && crate::decode::spec_dependency(x) is Some {
            let h = crate::decode::spec_dependency(s.first())->0;
            let rest = crate::decode::dep_elems(s.drop_first())->0;
            let xe = crate::decode::spec_dependency(x)->0;
            assert(seq![h] + rest.push(xe) =~= (seq![h] + rest).push(xe));
        }
    }
}

/// As [`lemma_str_elems_push`], for node dependencies.
proof fn lemma_nodedep_elems_push(s: Seq<JsonModel>, x: JsonModel)
    ensures
        crate::decode::nodedep_elems(s.push(x)) == (if crate::decode::nodedep_elems(s) is Some
            && crate::decode::spec_node_dependency(x) is Some {
            Some(
                crate::decode::nodedep_elems(s)->0.push(
                    crate::decode::spec_node_dependency(x)->0,
                ),
            )
        } else {
            None::<Seq<crate::NodeDependencyView>>
        }),
    decreases s.len(),
{
    if s.len() == 0 {
        assert(s.push(x).first() == x);
        assert(s.push(x).drop_first() =~= Seq::<JsonModel>::empty());
        assert(crate::decode::nodedep_elems(Seq::<JsonModel>::empty()) == Some(
            Seq::<crate::NodeDependencyView>::empty(),
        ));
        if crate::decode::spec_node_dependency(x) is Some {
            assert(seq![crate::decode::spec_node_dependency(x)->0]
                + Seq::<crate::NodeDependencyView>::empty()
                =~= Seq::<crate::NodeDependencyView>::empty().push(
                crate::decode::spec_node_dependency(x)->0,
            ));
        }
    } else {
        assert(s.push(x).first() == s.first());
        assert(s.push(x).drop_first() =~= s.drop_first().push(x));
        lemma_nodedep_elems_push(s.drop_first(), x);
        if crate::decode::nodedep_elems(s) is Some && crate::decode::spec_node_dependency(
            x,
        ) is Some {
            let h = crate::decode::spec_node_dependency(s.first())->0;
            let rest = crate::decode::nodedep_elems(s.drop_first())->0;
            let xe = crate::decode::spec_node_dependency(x)->0;
            assert(seq![h] + rest.push(xe) =~= (seq![h] + rest).push(xe));
        }
    }
}

/// As [`lemma_str_elems_push`], for nodes.
proof fn lemma_node_elems_push(s: Seq<JsonModel>, x: JsonModel)
    ensures
        crate::decode::node_elems(s.push(x)) == (if crate::decode::node_elems(s) is Some
            && crate::decode::spec_node(x) is Some {
            Some(crate::decode::node_elems(s)->0.push(crate::decode::spec_node(x)->0))
        } else {
            None::<Seq<crate::NodeView>>
        }),
    decreases s.len(),
{
    if s.len() == 0 {
        assert(s.push(x).first() == x);
        assert(s.push(x).drop_first() =~= Seq::<JsonModel>::empty());
        assert(crate::decode::node_elems(Seq::<JsonModel>::empty()) == Some(
            Seq::<crate::NodeView>::empty(),
        ));
        if crate::decode::spec_node(x) is Some {
            assert(seq![crate::decode::spec_node(x)->0] + Seq::<crate::NodeView>::empty()
                =~= Seq::<crate::NodeView>::empty().push(crate::decode::spec_node(x)->0));
        }
    } else {
        assert(s.push(x).first() == s.first());
        assert(s.push(x).drop_first() =~= s.drop_first().push(x));
        lemma_node_elems_push(s.drop_first(), x);
        if crate::decode::node_elems(s) is Some && crate::decode::spec_node(x) is Some {
            let h = crate::decode::spec_node(s.first())->0;
            let rest = crate::decode::node_elems(s.drop_first())->0;
            let xe = crate::decode::spec_node(x)->0;
            assert(seq![h] + rest.push(xe) =~= (seq![h] + rest).push(xe));
        }
    }
}

/// As [`lemma_str_elems_push`], for packages.
proof fn lemma_package_elems_push(s: Seq<JsonModel>, x: JsonModel)
    ensures
        crate::decode::package_elems(s.push(x)) == (if crate::decode::package_elems(s) is Some
            && crate::decode::spec_package(x) is Some {
            Some(crate::decode::package_elems(s)->0.push(crate::decode::spec_package(x)->0))
        } else {
            None::<Seq<crate::PackageView>>
        }),
    decreases s.len(),
{
    if s.len() == 0 {
        assert(s.push(x).first() == x);
        assert(s.push(x).drop_first() =~= Seq::<JsonModel>::empty());
        assert(crate::decode::package_elems(Seq::<JsonModel>::empty()) == Some(
            Seq::<crate::PackageView>::empty(),
        ));
        if crate::decode::spec_package(x) is Some {
            assert(seq![crate::decode::spec_package(x)->0] + Seq::<crate::PackageView>::empty()
                =~= Seq::<crate::PackageView>::empty().push(crate::decode::spec_package(x)->0));
        }
    } else {
        assert(s.push(x).first() == s.first());
        assert(s.push(x).drop_first() =~= s.drop_first().push(x));
        lemma_package_elems_push(s.drop_first(), x);
        if crate::decode::package_elems(s) is Some && crate::decode::spec_package(x) is Some {
            let h = crate::decode::spec_package(s.first())->0;
            let rest = crate::decode::package_elems(s.drop_first())->0;
            let xe = crate::decode::spec_package(x)->0;
            assert(seq![h] + rest.push(xe) =~= (seq![h] + rest).push(xe));
        }
    }
}

/// Appending an element to an array appends its model.
proof fn lemma_arr_model_push(items: Seq<JsonValue>, x: JsonValue)
    ensures
        crate::json::arr_model(items.push(x)) =~= crate::json::arr_model(items).push(
            crate::json::json_model(x),
        ),
{
    crate::json::lemma_arr_model(items);
    crate::json::lemma_arr_model(items.push(x));
    assert forall|k: int| 0 <= k < items.len() + 1 implies #[trigger] crate::json::arr_model(
        items.push(x),
    )[k] == crate::json::arr_model(items).push(crate::json::json_model(x))[k] by {
        if k < items.len() {
            assert(items.push(x)[k] == items[k]);
        } else {
            assert(items.push(x)[k] == x);
        }
    }
}

/// An optional string as a JSON value: `null` where absent.
fn opt_str_json(o: &Option<String>) -> (r: JsonValue)
    ensures
        match o {
            Some(s) => r@ == JsonModel::Str(s@),
            None => r@ == JsonModel::Null,
        },
{
    match o {
        Some(s) => JsonValue::Str(s.clone()),
        None => JsonValue::Null,
    }
}

/// A list of strings as a JSON array of strings.
fn str_vec_json(v: &Vec<String>) -> (r: JsonValue)
    ensures
        r@ matches JsonModel::Arr(items) && crate::decode::str_elems(items) == Some(v.deep_view()),
{
    let n = v.len();
    let mut out: Vec<JsonValue> = Vec::new();
    proof {
        assert(crate::json::arr_model(out@) =~= Seq::<JsonModel>::empty());
        assert(v.deep_view().take(0) =~= Seq::<Seq<char>>::empty());
    }
    let mut i: usize = 0;
    while i < n
        invariant
            i <= n,
            n == v@.len(),
            out@.len() == i,
            crate::decode::str_elems(crate::json::arr_model(out@)) == Some(
                v.deep_view().take(i as int),
            ),
        decreases n - i,
    {
        let ghost prev = out@;
        out.push(JsonValue::Str(v[i].clone()));
        proof {
            lemma_arr_model_push(prev, JsonValue::Str(v[i as int]));
            lemma_str_elems_push(
                crate::json::arr_model(prev),
                crate::json::json_model(JsonValue::Str(v[i as int])),
            );
            assert(v.deep_view().take(i + 1) =~= v.deep_view().take(i as int).push(
                v.deep_view()[i as int],
            ));
        }
        i = i + 1;
    }
    proof {
        assert(v.deep_view().take(n as int) =~= v.deep_view());
    }
    JsonValue::Arr(out)
}

/// A declared dependency as a JSON object.
fn dependency_to_json(d: &crate::Dependency) -> (r: JsonValue)
    ensures
        crate::decode::spec_dependency(r@) == Some(d@),
{
    let mut fields: Vec<(String, JsonValue)> = Vec::new();
    fields.push((String::from_str("name"), JsonValue::Str(d.name.clone())));
    fields.push((String::from_str("rename"), opt_str_json(&d.rename)));
    fields.push((String::from_str("path"), opt_str_json(&d.path)));
    let r = JsonValue::Obj(fields);
    proof {
        reveal_strlit("name");
        reveal_strlit("rename");
        reveal_strlit("path");
        let model = crate::json::obj_model(r->Obj_0@);
        crate::json::lemma_obj_model(r->Obj_0@);
        assert(model[0].0 == "name"@);
        assert(model[1].0 == "rename"@);
        assert(model[2].0 == "path"@);
        assert("name"@ != "rename"@);
        assert("name"@ != "path"@) by {
            assert("name"@[0] == 'n');
            assert("path"@[0] == 'p');
        }
        assert("rename"@ != "path"@);
        crate::json::lemma_obj_lookup_found(model, "name"@, 0);
        crate::json::lemma_obj_lookup_found(model, "rename"@, 1);
        crate::json::lemma_obj_lookup_found(model, "path"@, 2);
    }
    r
}

/// A node dependency as a JSON object.
fn nodedep_to_json(d: &crate::NodeDependency) -> (r: JsonValue)
    ensures
        crate::decode::spec_node_dependency(r@) == Some(d@),
{
    let mut fields: Vec<(String, JsonValue)> = Vec::new();
    fields.push((String::from_str("name"), JsonValue::Str(d.name.clone())));
    fields.push((String::from_str("pkg"), JsonValue::Str(d.pkg.repr.clone())));
    let r = JsonValue::Obj(fields);
    proof {
        reveal_strlit("name");
        reveal_strlit("pkg");
        let model = crate::json::obj_model(r->Obj_0@);
        crate::json::lemma_obj_model(r->Obj_0@);
        assert(model[0].0 == "name"@);
        assert(model[1].0 == "pkg"@);
        assert("name"@ != "pkg"@);
        crate::json::lemma_obj_lookup_found(model, "name"@, 0);
        crate::json::lemma_obj_lookup_found(model, "pkg"@, 1);
    }
    r
}

/// A list of declared dependencies as a JSON array.
fn dep_vec_json(v: &Vec<crate::Dependency>) -> (r: JsonValue)
    ensures
        r@ matches JsonModel::Arr(items) && crate::decode::dep_elems(items) == Some(v.deep_view()),
{
    let n = v.len();
    let mut out: Vec<JsonValue> = Vec::new();
    proof {
        assert(crate::json::arr_model(out@) =~= Seq::<JsonModel>::empty());
        assert(v.deep_view().take(0) =~= Seq::<crate::DependencyView>::empty());
    }
    let mut i: usize = 0;
    while i < n
        invariant
            i <= n,
            n == v@.len(),
            out@.len() == i,
            crate::decode::dep_elems(crate::json::arr_model(out@)) == Some(
                v.deep_view().take(i as int),
            ),
        decreases n - i,
    {
        let ghost prev = out@;
        let e = dependency_to_json(&v[i]);
        let ghost ee = e;
        out.push(e);
        proof {
            lemma_arr_model_push(prev, ee);
            lemma_dep_elems_push(crate::json::arr_model(prev), crate::json::json_model(ee));
            assert(v.deep_view().take(i + 1) =~= v.deep_view().take(i as int).push(
                v.deep_view()[i as int],
            ));
        }
        i = i + 1;
    }
    proof {
        assert(v.deep_view().take(n as int) =~= v.deep_view());
    }
    JsonValue::Arr(out)
}

/// A list of node dependencies as a JSON array.
fn nodedep_vec_json(v: &Vec<crate::NodeDependency>) -> (r: JsonValue)
    ensures
        r@ matches JsonModel::Arr(items) && crate::decode::nodedep_elems(items) == Some(
            v.deep_view(),
        ),
{
    let n = v.len();
    let mut out: Vec<JsonValue> = Vec::new();
    proof {
        assert(crate::json::arr_model(out@) =~= Seq::<JsonModel>::empty());
        assert(v.deep_view().take(0) =~= Seq::<crate::NodeDependencyView>::empty());
    }
    let mut i: usize = 0;
    while i < n
        invariant
            i <= n,
            n == v@.len(),
            out@.len() == i,
            crate::decode::nodedep_elems(crate::json::arr_model(out@)) == Some(
                v.deep_view().take(i as int),
            ),
        decreases n - i,
    {
        let ghost prev = out@;
        let e = nodedep_to_json(&v[i]);
        let ghost ee = e;
        out.push(e);
        proof {
            lemma_arr_model_push(prev, ee);
            lemma_nodedep_elems_push(crate::json::arr_model(prev), crate::json::json_model(ee));
            assert(v.deep_view().take(i + 1) =~= v.deep_view().take(i as int).push(
                v.deep_view()[i as int],
            ));
        }
        i = i + 1;
    }
    proof {
        assert(v.deep_view().take(n as int) =~= v.deep_view());
    }
    JsonValue::Arr(out)
}

/// A list of package identifiers as a JSON array of strings.
fn id_vec_json(v: &Vec<crate::PackageId>) -> (r: JsonValue)
    ensures
        r@ matches JsonModel::Arr(items) && crate::decode::str_elems(items) == Some(v.deep_view()),
{
    let n = v.len();
    let mut out: Vec<JsonValue> = Vec::new();
    proof {
        assert(crate::json::arr_model(out@) =~= Seq::<JsonModel>::empty());
        assert(v.deep_view().take(0) =~= Seq::<Seq<char>>::empty());
    }
    let mut i: usize = 0;
    while i < n
        invariant
            i <= n,
            n == v@.len(),
            out@.len() == i,
            crate::decode::str_elems(crate::json::arr_model(out@)) == Some(
                v.deep_view().take(i as int),
            ),
        decreases n - i,
    {
        let ghost prev = out@;
        out.push(JsonValue::Str(v[i].repr.clone()));
        proof {
            lemma_arr_model_push(prev, JsonValue::Str(v[i as int].repr));
            lemma_str_elems_push(
                crate::json::arr_model(prev),
                crate::json::json_model(JsonValue::Str(v[i as int].repr)),
            );
            assert(v.deep_view().take(i + 1) =~= v.deep_view().take(i as int).push(
                v.deep_view()[i as int],
            ));
        }
        i = i + 1;
    }
    proof {
        assert(v.deep_view().take(n as int) =~= v.deep_view());
    }
    JsonValue::Arr(out)
}

/// A resolved node as a JSON object.
fn node_to_json(n: &crate::Node) -> (r: JsonValue)
    ensures
        crate::decode::spec_node(r@) == Some(n@),
{
    let mut fields: Vec<(String, JsonValue)> = Vec::new();
    fields.push((String::from_str("id"), JsonValue::Str(n.id.repr.clone())));
    fields.push((String::from_str("renamed_dependencies"), nodedep_vec_json(
        &n.renamed_dependencies,
    )));
    fields.push((String::from_str("dependencies"), id_vec_json(&n.dependencies)));
    let r = JsonValue::Obj(fields);
    proof {
        reveal_strlit("id");
        reveal_strlit("renamed_dependencies");
        reveal_strlit("dependencies");
        let model = crate::json::obj_model(r->Obj_0@);
        crate::json::lemma_obj_model(r->Obj_0@);
        assert(model[0].0 == "id"@);
        assert(model[1].0 == "renamed_dependencies"@);
        assert(model[2].0 == "dependencies"@);
        assert("id"@ != "renamed_dependencies"@);
        assert("id"@ != "dependencies"@);
        assert("renamed_dependencies"@ != "dependencies"@);
        crate::json::lemma_obj_lookup_found(model, "id"@, 0);
        crate::json::lemma_obj_lookup_found(model, "renamed_dependencies"@, 1);
        crate::json::lemma_obj_lookup_found(model, "dependencies"@, 2);
    }
    r
}

/// A list of nodes as a JSON array.
fn node_vec_json(v: &Vec<crate::Node>) -> (r: JsonValue)
    ensures
        r@ matches JsonModel::Arr(items) && crate::decode::node_elems(items) == Some(v.deep_view()),
{
    let n = v.len();
    let mut out: Vec<JsonValue> = Vec::new();
    proof {
        assert(crate::json::arr_model(out@) =~= Seq::<JsonModel>::empty());
        assert(v.deep_view().take(0) =~= Seq::<crate::NodeView>::empty());
    }
    let mut i: usize = 0;
    while i < n
        invariant
            i <= n,
            n == v@.len(),
            out@.len() == i,
            crate::decode::node_elems(crate::json::arr_model(out@)) == Some(
                v.deep_view().take(i as int),
            ),
        decreases n - i,
    {
        let ghost prev = out@;
        let e = node_to_json(&v[i]);
        let ghost ee = e;
        out.push(e);
        proof {
            lemma_arr_model_push(prev, ee);
            lemma_node_elems_push(crate::json::arr_model(prev), crate::json::json_model(ee));
            assert(v.deep_view().take(i + 1) =~= v.deep_view().take(i as int).push(
                v.deep_view()[i as int],
            ));
        }
        i = i + 1;
    }
    proof {
        assert(v.deep_view().take(n as int) =~= v.deep_view());
    }
    JsonValue::Arr(out)
}

/// A resolved graph as a JSON object.
fn resolve_to_json(g: &crate::Resolve) -> (r: JsonValue)
    ensures
        crate::decode::spec_resolve(r@) == Some(g@),
        r@ is Obj,
{
    let mut fields: Vec<(String, JsonValue)> = Vec::new();
    fields.push((String::from_str("nodes"), node_vec_json(&g.nodes)));
    let root = match &g.root {
        Some(id) => JsonValue::Str(id.repr.clone()),
        None => JsonValue::Null,
    };
    fields.push((String::from_str("root"), root));
    let r = JsonValue::Obj(fields);
    proof {
        reveal_strlit("nodes");
        reveal_strlit("root");
        let model = crate::json::obj_model(r->Obj_0@);
        crate::json::lemma_obj_model(r->Obj_0@);
        assert(model[0].0 == "nodes"@);
        assert(model[1].0 == "root"@);
        assert("nodes"@ != "root"@);
        crate::json::lemma_obj_lookup_found(model, "nodes"@, 0);
        crate::json::lemma_obj_lookup_found(model, "root"@, 1);
    }
    r
}

/// A package as a JSON object; the free-form metadata payload is written
/// only where it is not `null`.
fn package_to_json(p: &crate::Package) -> (r: JsonValue)
    ensures
        version_reparses(p@.version) ==> crate::decode::spec_package(r@) == Some(p@),
{
    let mut fields: Vec<(String, JsonValue)> = Vec::new();
    fields.push((String::from_str("name"), JsonValue::Str(p.name.clone())));
    fields.push((String::from_str("version"), JsonValue::Str(render_semver(&p.version))));
    fields.push((String::from_str("authors"), str_vec_json(&p.authors)));
    fields.push((String::from_str("id"), JsonValue::Str(p.id.repr.clone())));
    fields.push((String::from_str("description"), opt_str_json(&p.description)));
    fields.push((String::from_str("dependencies"), dep_vec_json(&p.dependencies)));
    fields.push((String::from_str("license"), opt_str_json(&p.license)));
    fields.push((String::from_str("license_file"), opt_str_json(&p.license_file)));
    fields.push((String::from_str("manifest_path"), JsonValue::Str(p.manifest_path.clone())));
    fields.push((String::from_str("categories"), str_vec_json(&p.categories)));
    fields.push((String::from_str("keywords"), str_vec_json(&p.keywords)));
    fields.push((String::from_str("readme"), opt_str_json(&p.readme)));
    fields.push((String::from_str("repository"), opt_str_json(&p.repository)));
    fields.push((String::from_str("homepage"), opt_str_json(&p.homepage)));
    fields.push((String::from_str("documentation"), opt_str_json(&p.documentation)));
    fields.push((String::from_str("edition"), JsonValue::Str(
        String::from_str(p.edition.as_str()),
    )));
    let has_meta = match &p.metadata {
        JsonValue::Null => false,
        _ => true,
    };
    if has_meta {
        fields.push((String::from_str("metadata"), crate::decode::clone_json(&p.metadata)));
    }
    let r = JsonValue::Obj(fields);
    proof {
        reveal_strlit("name");
        reveal_strlit("version");
        reveal_strlit("authors");
        reveal_strlit("id");
        reveal_strlit("description");
        reveal_strlit("dependencies");
        reveal_strlit("license");
        reveal_strlit("license_file");
        reveal_strlit("manifest_path");
        reveal_strlit("categories");
        reveal_strlit("keywords");
        reveal_strlit("readme");
        reveal_strlit("repository");
        reveal_strlit("homepage");
        reveal_strlit("documentation");
        reveal_strlit("edition");
        reveal_strlit("metadata");
        reveal_strlit("WGSL");
        reveal_strlit("WESL");
        let model = crate::json::obj_model(r->Obj_0@);
        crate::json::lemma_obj_model(r->Obj_0@);
        assert(model[0].0 == "name"@);
        assert(model[1].0 == "version"@);
        assert(model[2].0 == "authors"@);
        assert(model[3].0 == "id"@);
        assert(model[4].0 == "description"@);
        assert(model[5].0 == "dependencies"@);
        assert(model[6].0 == "license"@);
        assert(model[7].0 == "license_file"@);
        assert(model[8].0 == "manifest_path"@);
        assert(model[9].0 == "categories"@);
        assert(model[10].0 == "keywords"@);
        assert(model[11].0 == "readme"@);
        assert(model[12].0 == "repository"@);
        assert(model[13].0 == "homepage"@);
        assert(model[14].0 == "documentation"@);
        assert(model[15].0 == "edition"@);
        assert("name"@ != "version"@);
        assert("name"@ != "authors"@);
        assert("version"@ != "authors"@) by {
            assert("version"@[0] == 'v');
            assert("authors"@[0] == 'a');
        }
        assert("name"@ != "id"@);
        assert("version"@ != "id"@);
        assert("authors"@ != "id"@);
        assert("name"@ != "description"@);
        assert("version"@ != "description"@);
        assert("authors"@ != "description"@);
        assert("id"@ != "description"@);
        assert("name"@ != "dependencies"@);
        assert("version"@ != "dependencies"@);
        assert("authors"@ != "dependencies"@);
        assert("id"@ != "dependencies"@);
        assert("description"@ != "dependencies"@);
        assert("name"@ != "license"@);
        assert("version"@ != "license"@) by {
            assert("version"@[0] == 'v');
            assert("license"@[0] == 'l');
        }
        assert("authors"@ != "license"@) by {
            assert("authors"@[0] == 'a');
            assert("license"@[0] == 'l');
        }
        assert("id"@ != "license"@);
        assert("description"@ != "license"@);
        assert("dependencies"@ != "license"@);
        assert("name"@ != "license_file"@);
        assert("version"@ != "license_file"@);
        assert("authors"@ != "license_file"@);
        assert("id"@ != "license_file"@);
        assert("description"@ != "license_file"@);
        assert("dependencies"@ != "license_file"@) by {
            assert("dependencies"@[0] == 'd');
            assert("license_file"@[0] == 'l');
        }
        assert("license"@ != "license_file"@);
        assert("name"@ != "manifest_path"@);
        assert("version"@ != "manifest_path"@);
        assert("authors"@ != "manifest_path"@);
        assert("id"@ != "manifest_path"@);
        assert("description"@ != "manifest_path"@);
        assert("dependencies"@ != "manifest_path"@);
        assert("license"@ != "manifest_path"@);
        assert("license_file"@ != "manifest_path"@);
        assert("name"@ != "categories"@);
        assert("version"@ != "categories"@);
        assert("authors"@ != "categories"@);
        assert("id"@ != "categories"@);
        assert("description"@ != "categories"@);
        assert("dependencies"@ != "categories"@);
        assert("license"@ != "categories"@);
        assert("license_file"@ != "categories"@);
        assert("manifest_path"@ != "categories"@);
        assert("name"@ != "keywords"@);
        assert("version"@ != "keywords"@);
        assert("authors"@ != "keywords"@);
        assert("id"@ != "keywords"@);
        assert("description"@ != "keywords"@);
        assert("dependencies"@ != "keywords"@);
        assert("license"@ != "keywords"@);
        assert("license_file"@ != "keywords"@);
        assert("manifest_path"@ != "keywords"@);
        assert("categories"@ != "keywords"@);
        assert("name"@ != "readme"@);
        assert("version"@ != "readme"@);
        assert("authors"@ != "readme"@);
        assert("id"@ != "readme"@);
        assert("description"@ != "readme"@);
        assert("dependencies"@ != "readme"@);
        assert("license"@ != "readme"@);
        assert("license_file"@ != "readme"@);
        assert("manifest_path"@ != "readme"@);
        assert("categories"@ != "readme"@);
        assert("keywords"@ != "readme"@);
        assert("name"@ != "repository"@);
        assert("version"@ != "repository"@);
        assert("authors"@ != "repository"@);
        assert("id"@ != "repository"@);
        assert("description"@ != "repository"@);
        assert("dependencies"@ != "repository"@);
        assert("license"@ != "repository"@);
        assert("license_file"@ != "repository"@);
        assert("manifest_path"@ != "repository"@);
        assert("categories"@ != "repository"@) by {
            assert("categories"@[0] == 'c');
            assert("repository"@[0] == 'r');
        }
        assert("keywords"@ != "repository"@);
        assert("readme"@ != "repository"@);
        assert("name"@ != "homepage"@);
        assert("version"@ != "homepage"@);
        assert("authors"@ != "homepage"@);
        assert("id"@ != "homepage"@);
        assert("description"@ != "homepage"@);
        assert("dependencies"@ != "homepage"@);
        assert("license"@ != "homepage"@);
        assert("license_file"@ != "homepage"@);
        assert("manifest_path"@ != "homepage"@);
        assert("categories"@ != "homepage"@);
        assert("keywords"@ != "homepage"@) by {
            assert("keywords"@[0] == 'k');
            assert("homepage"@[0] == 'h');
        }
        assert("readme"@ != "homepage"@);
        assert("repository"@ != "homepage"@);
        assert("name"@ != "documentation"@);
        assert("version"@ != "documentation"@);
        assert("authors"@ != "documentation"@);
        assert("id"@ != "documentation"@);
        assert("description"@ != "documentation"@);
        assert("dependencies"@ != "documentation"@);
        assert("license"@ != "documentation"@);
        assert("license_file"@ != "documentation"@);
        assert("manifest_path"@ != "documentation"@) by {
            assert("manifest_path"@[0] == 'm');
            assert("documentation"@[0] == 'd');
        }
        assert("categories"@ != "documentation"@);
        assert("keywords"@ != "documentation"@);
        assert("readme"@ != "documentation"@);
        assert("repository"@ != "documentation"@);
        assert("homepage"@ != "documentation"@);
        assert("name"@ != "edition"@);
        assert("version"@ != "edition"@) by {
            assert("version"@[0] == 'v');
            assert("edition"@[0] == 'e');
        }
        assert("authors"@ != "edition"@) by {
            assert("authors"@[0] == 'a');
            assert("edition"@[0] == 'e');
        }
        assert("id"@ != "edition"@);
        assert("description"@ != "edition"@);
        assert("dependencies"@ != "edition"@);
        assert("license"@ != "edition"@) by {
            assert("license"@[0] == 'l');
            assert("edition"@[0] == 'e');
        }
        assert("license_file"@ != "edition"@);
        assert("manifest_path"@ != "edition"@);
        assert("categories"@ != "edition"@);
        assert("keywords"@ != "edition"@);
        assert("readme"@ != "edition"@);
        assert("repository"@ != "edition"@);
        assert("homepage"@ != "edition"@);
        assert("documentation"@ != "edition"@);
        assert("name"@ != "metadata"@);
        assert("version"@ != "metadata"@);
        assert("authors"@ != "metadata"@);
        assert("id"@ != "metadata"@);
        assert("description"@ != "metadata"@);
        assert("dependencies"@ != "metadata"@);
        assert("license"@ != "metadata"@);
        assert("license_file"@ != "metadata"@);
        assert("manifest_path"@ != "metadata"@);
        assert("categories"@ != "metadata"@);
        assert("keywords"@ != "metadata"@) by {
            assert("keywords"@[0] == 'k');
            assert("metadata"@[0] == 'm');
        }
        assert("readme"@ != "metadata"@);
        assert("repository"@ != "metadata"@);
        assert("homepage"@ != "metadata"@) by {
            assert("homepage"@[0] == 'h');
            assert("metadata"@[0] == 'm');
        }
        assert("documentation"@ != "metadata"@);
        assert("edition"@ != "metadata"@);
        crate::json::lemma_obj_lookup_found(model, "name"@, 0);
        crate::json::lemma_obj_lookup_found(model, "version"@, 1);
        crate::json::lemma_obj_lookup_found(model, "authors"@, 2);
        crate::json::lemma_obj_lookup_found(model, "id"@, 3);
        crate::json::lemma_obj_lookup_found(model, "description"@, 4);
        crate::json::lemma_obj_lookup_found(model, "dependencies"@, 5);
        crate::json::lemma_obj_lookup_found(model, "license"@, 6);
        crate::json::lemma_obj_lookup_found(model, "license_file"@, 7);
        crate::json::lemma_obj_lookup_found(model, "manifest_path"@, 8);
        crate::json::lemma_obj_lookup_found(model, "categories"@, 9);
        crate::json::lemma_obj_lookup_found(model, "keywords"@, 10);
        crate::json::lemma_obj_lookup_found(model, "readme"@, 11);
        crate::json::lemma_obj_lookup_found(model, "repository"@, 12);
        crate::json::lemma_obj_lookup_found(model, "homepage"@, 13);
        crate::json::lemma_obj_lookup_found(model, "documentation"@, 14);
        crate::json::lemma_obj_lookup_found(model, "edition"@, 15);
        if has_meta {
            assert(model[16].0 == "metadata"@);
            crate::json::lemma_obj_lookup_found(model, "metadata"@, 16);
        } else {
            assert forall|k: int|
                0 <= k < model.len() implies (#[trigger] model[k]).0 != "metadata"@ by {
            if k == 0 {
            } else            if k == 1 {
            } else            if k == 2 {
            } else            if k == 3 {
            } else            if k == 4 {
            } else            if k == 5 {
            } else            if k == 6 {
            } else            if k == 7 {
            } else            if k == 8 {
            } else            if k == 9 {
            } else            if k == 10 {
            } else            if k == 11 {
            } else            if k == 12 {
            } else            if k == 13 {
            } else            if k == 14 {
            } else            if k == 15 {
            } else {
            }
            }
            crate::json::lemma_obj_lookup_none(model, "metadata"@);
            assert(p@.metadata == JsonModel::Null);
        }
        match p.edition {
            crate::Edition::Wgsl => {
                assert(crate::decode::spec_edition_value(JsonModel::Str(crate::spec_edition_wgsl()))
                    == Some(crate::Edition::Wgsl));
            },
            crate::Edition::WeslUnstable2025 => {
                assert(crate::spec_edition_wesl() != crate::spec_edition_wgsl()) by {
                    assert("WESL"@[1] == 'E');
                    assert("WGSL"@[1] == 'G');
                }
            },
        }
        if version_reparses(p@.version) {
            assert(crate::decode::spec_package(r@) == Some(p@));
        }
    }
    r
}

/// A list of packages as a JSON array.
fn package_vec_json(v: &Vec<crate::Package>) -> (r: JsonValue)
    ensures
        r@ is Arr,
        (forall|k: int|
            0 <= k < v.deep_view().len() ==> version_reparses(
                (#[trigger] v.deep_view()[k]).version,
            )) ==> crate::decode::package_elems(r@->Arr_0) == Some(v.deep_view()),
{
    let n = v.len();
    let mut out: Vec<JsonValue> = Vec::new();
    proof {
        assert(crate::json::arr_model(out@) =~= Seq::<JsonModel>::empty());
        assert(v.deep_view().take(0) =~= Seq::<crate::PackageView>::empty());
    }
    let mut i: usize = 0;
    while i < n
        invariant
            i <= n,
            n == v@.len(),
            out@.len() == i,
            (forall|k: int|
                0 <= k < i ==> version_reparses((#[trigger] v.deep_view()[k]).version))
                ==> crate::decode::package_elems(crate::json::arr_model(out@)) == Some(
                v.deep_view().take(i as int),
            ),
        decreases n - i,
    {
        let ghost prev = out@;
        let e = package_to_json(&v[i]);
        let ghost ee = e;
        out.push(e);
        proof {
            lemma_arr_model_push(prev, ee);
            if forall|k: int|
                0 <= k < i + 1 ==> version_reparses((#[trigger] v.deep_view()[k]).version) {
                assert(version_reparses(v.deep_view()[i as int].version));
                assert(crate::decode::spec_package(crate::json::json_model(ee)) == Some(
                    v.deep_view()[i as int],
                ));
                lemma_package_elems_push(
                    crate::json::arr_model(prev),
                    crate::json::json_model(ee),
                );
                assert(v.deep_view().take(i + 1) =~= v.deep_view().take(i as int).push(
                    v.deep_view()[i as int],
                ));
            }
        }
        i = i + 1;
    }
    proof {
        assert(v.deep_view().take(n as int) =~= v.deep_view());
    }
    JsonValue::Arr(out)
}

impl crate::Metadata {
    /// This metadata value as a JSON tree: the document the tool itself
    /// would have emitted for it.
    ///
    /// Decoding the result yields this value back, for every metadata
    /// value whose package versions survive rendering and re-parsing
    /// through `semver` — which is every version that `semver`'s own
    /// parser produced.
    pub fn to_json(&self) -> (r: JsonValue)
        ensures
            metadata_reparses(self@) ==> crate::decode::spec_metadata(r@) == Some(self@),
    {
        let mut fields: Vec<(String, JsonValue)> = Vec::new();
        let manager = match self.package_manager {
            crate::PackageManager::Npm => String::from_str("Npm"),
            crate::PackageManager::Cargo => String::from_str("Cargo"),
        };
        fields.push((String::from_str("package_manager"), JsonValue::Str(manager)));
        fields.push((String::from_str("packages"), package_vec_json(&self.packages)));
        let resolve = match &self.resolve {
            Some(g) => resolve_to_json(g),
            None => JsonValue::Null,
        };
        fields.push((String::from_str("resolve"), resolve));
        fields.push((String::from_str("target_directory"), JsonValue::Str(
            self.target_directory.clone(),
        )));
        fields.push((String::from_str("version"), JsonValue::Num(
            u64_to_string(self.version as u64),
        )));
        fields.push((String::from_str("root_package_directory"), JsonValue::Str(
            self.root_package_directory.clone(),
        )));
        let r = JsonValue::Obj(fields);
        proof {
            reveal_strlit("package_manager");
            reveal_strlit("packages");
            reveal_strlit("resolve");
            reveal_strlit("target_directory");
            reveal_strlit("version");
            reveal_strlit("root_package_directory");
            reveal_strlit("Npm");
            reveal_strlit("Cargo");
            let model = crate::json::obj_model(r->Obj_0@);
            crate::json::lemma_obj_model(r->Obj_0@);
            assert(model[0].0 == "package_manager"@);
            assert(model[1].0 == "packages"@);
            assert(model[2].0 == "resolve"@);
            assert(model[3].0 == "target_directory"@);
            assert(model[4].0 == "version"@);
            assert(model[5].0 == "root_package_directory"@);
            assert("package_manager"@ != "packages"@);
            assert("package_manager"@ != "resolve"@);
            assert("packages"@ != "resolve"@);
            assert("package_manager"@ != "target_directory"@);
            assert("packages"@ != "target_directory"@);
            assert("resolve"@ != "target_directory"@);
            assert("package_manager"@ != "version"@);
            assert("packages"@ != "version"@);
            assert("resolve"@ != "version"@) by {
            assert("resolve"@[0] == 'r');
            assert("version"@[0] == 'v');
            }
            assert("target_directory"@ != "version"@);
            assert("package_manager"@ != "root_package_directory"@);
            assert("packages"@ != "root_package_directory"@);
            assert("resolve"@ != "root_package_directory"@);
            assert("target_directory"@ != "root_package_directory"@);
            assert("version"@ != "root_package_directory"@);
            crate::json::lemma_obj_lookup_found(model, "package_manager"@, 0);
            crate::json::lemma_obj_lookup_found(model, "packages"@, 1);
            crate::json::lemma_obj_lookup_found(model, "resolve"@, 2);
            crate::json::lemma_obj_lookup_found(model, "target_directory"@, 3);
            crate::json::lemma_obj_lookup_found(model, "version"@, 4);
            crate::json::lemma_obj_lookup_found(model, "root_package_directory"@, 5);
            match self.package_manager {
                crate::PackageManager::Npm => {
                    assert(crate::decode::spec_package_manager_value(JsonModel::Str("Npm"@))
                        == Some(crate::PackageManager::Npm));
                },
                crate::PackageManager::Cargo => {
                    assert("Cargo"@ != "Npm"@) by {
                        assert("Cargo"@.len() == 5);
                        assert("Npm"@.len() == 3);
                    }
                },
            }
            lemma_dec_str_value(self.version as u64 as nat);
            if metadata_reparses(self@) {
                assert(crate::decode::package_elems(model[1].1->Arr_0) == Some(self@.packages));
                assert(crate::decode::spec_metadata(r@) == Some(self@));
            }
        }
        r
    }
}

} // verus!
