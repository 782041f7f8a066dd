//! The session-variable resolver.
//!
//! The query engine hands an identifier, already split into its dotted
//! segments, to a pluggable variable provider during expression evaluation.
//! The leading characters of the first segment classify the reference: two
//! `@` mark a system variable (session-scoped when the first segment is
//! `@@session`, case-insensitively; global otherwise), a single `@` a
//! user-defined session variable, and anything else is no variable
//! reference at all and resolves to the null placeholder. Unknown but
//! well-formed references also resolve to the placeholder rather than
//! failing the query.
use crate::strmap::StrMap;
use vstd::prelude::*;
use vstd::string::StrSliceExecFns;
use vstd::string::StringExecFns;

verus! {

#[derive(Clone, Copy, PartialEq, Eq, Structural, Debug)]
pub enum VarType {
    System,
    UserDefined,
}

/// The value of a variable; `Utf8(None)` doubles as the null placeholder
/// returned for unknown or malformed references.
#[derive(PartialEq, Debug)]
pub enum ScalarValue {
    Utf8(Option<String>),
    Int64(Option<i64>),
    Boolean(Option<bool>),
}

impl Clone for ScalarValue {
    fn clone(&self) -> (r: Self)
        ensures
            r == *self,
    {
        match self {
            ScalarValue::Utf8(o) => ScalarValue::Utf8(
                match o {
                    Some(s) => Some(s.clone()),
                    None => None,
                },
            ),
            ScalarValue::Int64(o) => ScalarValue::Int64(
                match o {
                    Some(v) => Some(*v),
                    None => None,
                },
            ),
            ScalarValue::Boolean(o) => ScalarValue::Boolean(
                match o {
                    Some(v) => Some(*v),
                    None => None,
                },
            ),
        }
    }
}

/// A variable binding: its value and whether it is a system variable or a
/// user-defined session variable.
#[derive(PartialEq, Debug)]
pub struct Variable {
    pub var_type: VarType,
    pub value: ScalarValue,
}

impl Clone for Variable {
    fn clone(&self) -> (r: Self)
        ensures
            r == *self,
    {
        Variable { var_type: self.var_type, value: self.value.clone() }
    }
}

pub open spec fn null_value() -> ScalarValue {
    ScalarValue::Utf8(None)
}

/// ASCII case folding of one character, as a code point.
pub open spec fn fold_char(c: char) -> int {
    if 65 <= c as int <= 90 {
        c as int + 32
    } else {
        c as int
    }
}

pub open spec fn eq_ignore_ascii_case(a: Seq<char>, b: Seq<char>) -> bool {
    &&& a.len() == b.len()
    &&& forall|i: int| 0 <= i < a.len() ==> fold_char(#[trigger] a[i]) == fold_char(b[i])
}

/// The identifier segments joined back together, without separators.
pub open spec fn concat_segments(segs: Seq<Seq<char>>) -> Seq<char>
    decreases segs.len(),
{
    if segs.len() == 0 {
        Seq::empty()
    } else {
        concat_segments(segs.drop_last()) + segs.last()
    }
}

/// The map key of a session lookup: with a leading `@@session` segment the
/// remaining segments joined; otherwise everything joined with the single
/// leading `@` stripped.
pub open spec fn session_key(ids: Seq<Seq<char>>) -> Seq<char>
    recommends
        ids.len() >= 1,
{
    if ids.len() > 1 {
        if eq_ignore_ascii_case(ids[0], "@@session"@) {
            concat_segments(ids.drop_first())
        } else {
            concat_segments(ids).skip(1)
        }
    } else {
        concat_segments(ids).skip(1)
    }
}

/// The map key of a global lookup: with a leading `@@global` segment the
/// remaining segments joined; otherwise everything joined with the two
/// leading `@` stripped.
pub open spec fn global_key(ids: Seq<Seq<char>>) -> Seq<char>
    recommends
        ids.len() >= 1,
{
    if ids.len() > 1 {
        if eq_ignore_ascii_case(ids[0], "@@global"@) {
            concat_segments(ids.drop_first())
        } else {
            concat_segments(ids).skip(2)
        }
    } else {
        concat_segments(ids).skip(2)
    }
}

/// Looks a key up and returns its value only when the recorded kind
/// matches; everything else resolves to the null placeholder.
pub open spec fn lookup_filtered(m: StrMap<Variable>, key: Seq<char>, want: VarType) -> ScalarValue {
    match m.spec_get(key) {
        Some(v) => if v.var_type == want {
            v.value
        } else {
            null_value()
        },
        None => null_value(),
    }
}

/// The full classification and resolution rule for one identifier.
pub open spec fn spec_resolve(
    session: StrMap<Variable>,
    global: StrMap<Variable>,
    ids: Seq<Seq<char>>,
) -> ScalarValue
    recommends
        ids.len() >= 1,
{
    let first = ids[0];
    if first.len() < 2 {
        null_value()
    } else if first[0] == '@' && first[1] == '@' {
        if ids.len() > 1 && eq_ignore_ascii_case(first, "@@session"@) {
            lookup_filtered(session, session_key(ids), VarType::System)
        } else {
            lookup_filtered(global, global_key(ids), VarType::System)
        }
    } else if first[0] == '@' {
        lookup_filtered(session, session_key(ids), VarType::UserDefined)
    } else {
        null_value()
    }
}

/// Case-insensitive (ASCII) equality of two strings.
fn str_eq_ignore_ascii_case(a: &str, b: &str) -> (r: bool)
    ensures
        r == eq_ignore_ascii_case(a@, b@),
{
    let an = a.unicode_len();
    let bn = b.unicode_len();
    if an != bn {
        return false;
    }
    for i in 0..an
        invariant
            an == a@.len(),
            bn == b@.len(),
            an == bn,
            forall|q: int| 0 <= q < i ==> fold_char(#[trigger] a@[q]) == fold_char(b@[q]),
    {
        let ca = a.get_char(i) as u32;
        let cb = b.get_char(i) as u32;
        let fa = if 65 <= ca && ca <= 90 {
            ca + 32
        } else {
            ca
        };
        let fb = if 65 <= cb && cb <= 90 {
            cb + 32
        } else {
            cb
        };
        if fa != fb {
            return false;
        }
    }
    true
}

proof fn lemma_concat_step(segs: Seq<Seq<char>>, from: int, i: int)
    requires
        0 <= from <= i < segs.len(),
    ensures
        concat_segments(segs.subrange(from, i + 1)) == concat_segments(segs.subrange(from, i))
            + segs[i],
{
    assert(segs.subrange(from, i + 1).drop_last() =~= segs.subrange(from, i));
    assert(segs.subrange(from, i + 1).last() == segs[i]);
}

proof fn lemma_concat_len_lower(segs: Seq<Seq<char>>)
    requires
        segs.len() >= 1,
    ensures
        concat_segments(segs).len() >= segs[0].len(),
    decreases segs.len(),
{
    if segs.len() > 1 {
        lemma_concat_len_lower(segs.drop_last());
        assert(segs.drop_last()[0] == segs[0]);
    } else {
        assert(segs.drop_last() =~= Seq::<Seq<char>>::empty());
        assert(concat_segments(segs.drop_last()) == Seq::<char>::empty());
        assert(segs.last() == segs[0]);
        assert(Seq::<char>::empty() + segs[0] =~= segs[0]);
    }
}

/// Joins the segments from index `from` on, without separators.
fn concat_from(identifier: &Vec<String>, from: usize) -> (r: String)
    requires
        from <= identifier@.len(),
    ensures
        r@ == concat_segments(identifier.deep_view().skip(from as int)),
{
    let ghost segs: Seq<Seq<char>> = identifier.deep_view();
    let n = identifier.len();
    let mut s = String::new();
    proof {
        assert(segs.subrange(from as int, from as int) =~= Seq::<Seq<char>>::empty());
    }
    for i in from..n
        invariant
            n == identifier@.len(),
            from <= i <= n,
            segs == identifier.deep_view(),
            s@ == concat_segments(segs.subrange(from as int, i as int)),
    {
        proof {
            lemma_concat_step(segs, from as int, i as int);
            assert(segs[i as int] == identifier@[i as int]@);
        }
        let seg = &identifier[i];
        s.append(seg.as_str());
    }
    proof {
        assert(segs.subrange(from as int, n as int) =~= segs.skip(from as int));
    }
    s
}

/// Resolves session and server-wide variables for one connection.
pub struct VariablesProvider {
    pub session_variables: StrMap<Variable>,
    pub global_variables: StrMap<Variable>,
}

impl VariablesProvider {
    pub fn new(session_variables: StrMap<Variable>, global_variables: StrMap<Variable>) -> (p:
        Self)
        ensures
            p.session_variables == session_variables,
            p.global_variables == global_variables,
    {
        VariablesProvider { session_variables, global_variables }
    }

    fn get_session_value(&self, identifier: &Vec<String>, var_type: VarType) -> (r: ScalarValue)
        requires
            identifier@.len() >= 1,
            identifier@[0]@.len() >= 1,
        ensures
            r == lookup_filtered(
                self.session_variables,
                session_key(identifier.deep_view()),
                var_type,
            ),
    {
        let ghost segs: Seq<Seq<char>> = identifier.deep_view();
        proof {
            assert(segs[0] == identifier@[0]@);
        }
        let key: String;
        let seg0 = &identifier[0];
        if identifier.len() > 1 && str_eq_ignore_ascii_case(seg0.as_str(), "@@session") {
            key = concat_from(identifier, 1);
            proof {
                assert(segs.skip(1) =~= segs.drop_first());
            }
        } else {
            let all = concat_from(identifier, 0);
            proof {
                assert(segs.skip(0) =~= segs);
                lemma_concat_len_lower(segs);
            }
            let total = all.as_str().unicode_len();
            key = all.as_str().substring_char(1, total).to_owned();
            proof {
                assert(all@.subrange(1, all@.len() as int) =~= all@.skip(1));
            }
        }
        match self.session_variables.get(&key) {
            Some(var) => {
                if var.var_type == var_type {
                    var.value.clone()
                } else {
                    ScalarValue::Utf8(None)
                }
            },
            None => ScalarValue::Utf8(None),
        }
    }

    fn get_global_value(&self, identifier: &Vec<String>) -> (r: ScalarValue)
        requires
            identifier@.len() >= 1,
            identifier@[0]@.len() >= 2,
        ensures
            r == lookup_filtered(
                self.global_variables,
                global_key(identifier.deep_view()),
                VarType::System,
            ),
    {
        let ghost segs: Seq<Seq<char>> = identifier.deep_view();
        proof {
            assert(segs[0] == identifier@[0]@);
        }
        let key: String;
        let seg0 = &identifier[0];
        if identifier.len() > 1 && str_eq_ignore_ascii_case(seg0.as_str(), "@@global") {
            key = concat_from(identifier, 1);
            proof {
                assert(segs.skip(1) =~= segs.drop_first());
            }
        } else {
            let all = concat_from(identifier, 0);
            proof {
                assert(segs.skip(0) =~= segs);
                lemma_concat_len_lower(segs);
            }
            let total = all.as_str().unicode_len();
            key = all.as_str().substring_char(2, total).to_owned();
            proof {
                assert(all@.subrange(2, all@.len() as int) =~= all@.skip(2));
            }
        }
        match self.global_variables.get(&key) {
            Some(var) => {
                if var.var_type == VarType::System {
                    var.value.clone()
                } else {
                    ScalarValue::Utf8(None)
                }
            },
            None => ScalarValue::Utf8(None),
        }
    }

    /// Classifies the identifier and resolves it against the session or
    /// global variable map; never an error, unknown references resolve to
    /// the null placeholder.
    pub fn get_value(&self, identifier: &Vec<String>) -> (r: ScalarValue)
        requires
            identifier@.len() >= 1,
        ensures
            r == spec_resolve(
                self.session_variables,
                self.global_variables,
                identifier.deep_view(),
            ),
    {
        let ghost segs: Seq<Seq<char>> = identifier.deep_view();
        proof {
            assert(segs[0] == identifier@[0]@);
        }
        let first = &identifier[0];
        let flen = first.as_str().unicode_len();
        if flen < 2 {
            return ScalarValue::Utf8(None);
        }
        let c0 = first.as_str().get_char(0);
        let c1 = first.as_str().get_char(1);
        if c0 == '@' && c1 == '@' {
            if identifier.len() > 1 && str_eq_ignore_ascii_case(first.as_str(), "@@session") {
                self.get_session_value(identifier, VarType::System)
            } else {
                self.get_global_value(identifier)
            }
        } else if c0 == '@' {
            self.get_session_value(identifier, VarType::UserDefined)
        } else {
            ScalarValue::Utf8(None)
        }
    }
}

} // verus!
