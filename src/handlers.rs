//! The statement handlers: a field declaration, a method signature, and an object
//! header, each read from the grammar parts of one statement.

use vstd::prelude::*;
use crate::grammar::{Stream, StreamView, streams_view};
use crate::model::{
    Doc, Exception, ExceptionView, Member, Method, Object, Param, ParamView, exceptions_view,
    params_view,
};
use crate::reconcile::{match_params, reconciled};
use crate::text::{chars_of, join_sp, join_words, string_of, words_of};

verus! {

// ---------------------------------------------------------------- fields

/// The word lists of the type and identifier parts, in order: a type part gives
/// its words, an identifier the one word.
pub open spec fn field_parts(parts: Seq<StreamView>) -> Seq<Seq<Seq<char>>>
    decreases parts.len(),
{
    if parts.len() == 0 {
        Seq::empty()
    } else {
        let rest = field_parts(parts.drop_last());
        match parts.last() {
            StreamView::Type(ws) => rest.push(ws),
            StreamView::Variable(v) => rest.push(seq![v]),
            _ => rest,
        }
    }
}

/// The last access modifier among the parts; empty where there is none.
pub open spec fn last_access(parts: Seq<StreamView>) -> Seq<char>
    decreases parts.len(),
{
    if parts.len() == 0 {
        Seq::empty()
    } else {
        match parts.last() {
            StreamView::Access(a) => a,
            _ => last_access(parts.drop_last()),
        }
    }
}

/// The non-access modifiers among the parts, in order.
pub open spec fn modifiers_of(parts: Seq<StreamView>) -> Seq<Seq<char>>
    decreases parts.len(),
{
    if parts.len() == 0 {
        Seq::empty()
    } else {
        let rest = modifiers_of(parts.drop_last());
        match parts.last() {
            StreamView::Modifier(m) => rest.push(m),
            _ => rest,
        }
    }
}

/// Whether `w` holds an `=`.
pub open spec fn has_eq(w: Seq<char>) -> bool {
    exists|i: int| 0 <= i < w.len() && w[i] == '='
}

/// The characters of `w` before its first `=`.
pub open spec fn before_eq(w: Seq<char>) -> Seq<char>
    decreases w.len(),
{
    if w.len() == 0 {
        w
    } else if w[0] == '=' {
        Seq::empty()
    } else {
        seq![w[0]] + before_eq(w.drop_first())
    }
}

/// The index of the first word at or after `i` that holds an `=`; `ws.len()` where
/// there is none.
pub open spec fn eq_from(ws: Seq<Seq<char>>, i: int) -> int
    decreases ws.len() - i,
{
    if i < 0 || i >= ws.len() {
        ws.len() as int
    } else if has_eq(ws[i]) {
        i
    } else {
        eq_from(ws, i + 1)
    }
}

/// The index of the first word that holds an `=`; `ws.len()` where there is none.
pub open spec fn first_eq(ws: Seq<Seq<char>>) -> int {
    eq_from(ws, 0)
}

/// Type and name where the initializer starts at the word `w`, after the words
/// `pre`: the name is what precedes the `=` in `w`, or else the last word of `pre`;
/// the type is the words of `pre` before the name.
pub open spec fn eq_decl(pre: Seq<Seq<char>>, w: Seq<char>) -> (Seq<char>, Seq<char>) {
    if before_eq(w).len() > 0 {
        (join_sp(pre), before_eq(w))
    } else if pre.len() > 0 {
        (join_sp(pre.drop_last()), pre.last())
    } else {
        (Seq::empty(), Seq::empty())
    }
}

/// The declared type and name of a field statement: the first type or identifier
/// part is the type and the next one the name, each its words joined by spaces. An
/// initializer that starts within these two parts ends the declaration at its `=`
/// (see `eq_decl`); anything after the two parts is dropped.
pub open spec fn field_decl(parts: Seq<StreamView>) -> (Seq<char>, Seq<char>) {
    let p = field_parts(parts);
    if p.len() >= 1 && first_eq(p[0]) < p[0].len() {
        eq_decl(p[0].take(first_eq(p[0])), p[0][first_eq(p[0])])
    } else if p.len() >= 2 && first_eq(p[1]) < p[1].len() {
        eq_decl(p[0] + p[1].take(first_eq(p[1])), p[1][first_eq(p[1])])
    } else {
        (
            if p.len() >= 1 { join_sp(p[0]) } else { Seq::empty() },
            if p.len() >= 2 { join_sp(p[1]) } else { Seq::empty() },
        )
    }
}

/// The words of a type or identifier part; none for another part.
pub open spec fn part_words_of(p: StreamView) -> Seq<Seq<char>> {
    match p {
        StreamView::Type(ws) => ws,
        StreamView::Variable(v) => seq![v],
        _ => Seq::empty(),
    }
}

/// The index, from `i` on, of the part where a field declaration ends: the second
/// type or identifier part, which holds the name, or the first one where it holds an
/// `=`; `seen` counts the type or identifier parts before `i`.
pub open spec fn cut_from(parts: Seq<StreamView>, i: int, seen: nat) -> int
    decreases parts.len() - i,
{
    if i < 0 || i >= parts.len() {
        parts.len() as int
    } else if parts[i] is Type || parts[i] is Variable {
        if seen >= 1 || first_eq(part_words_of(parts[i])) < part_words_of(parts[i]).len() {
            i
        } else {
            cut_from(parts, i + 1, 1)
        }
    } else {
        cut_from(parts, i + 1, seen)
    }
}

/// The parts of a field statement that may carry its access and modifiers: those
/// before the part that holds its name or its initializer's `=`.
pub open spec fn field_head(parts: Seq<StreamView>) -> Seq<StreamView> {
    parts.take(cut_from(parts, 0, 0))
}

/// Splits `w` at its first `=`: whether it has one, and what precedes it.
fn split_eq(w: &String) -> (r: (bool, String))
    ensures
        r.0 == has_eq(w@),
        r.1@ == before_eq(w@),
{
    let cs = chars_of(w.as_str());
    let mut out: Vec<char> = Vec::new();
    let mut i: usize = 0;
    let mut found = false;
    assert(cs@.subrange(0, cs@.len() as int) =~= cs@);
    assert(out@ + before_eq(cs@) =~= before_eq(cs@));
    while i < cs.len() && !found
        invariant
            cs@ == w@,
            0 <= i <= cs@.len(),
            !found ==> before_eq(w@) == out@ + before_eq(cs@.subrange(i as int, cs@.len() as int)),
            !found ==> forall|k: int| 0 <= k < i ==> cs@[k] != '=',
            found ==> before_eq(w@) == out@ && has_eq(w@),
        decreases cs@.len() - i + if found { 0int } else { 1int },
    {
        let ghost rest = cs@.subrange(i as int, cs@.len() as int);
        assert(rest.drop_first() =~= cs@.subrange(i + 1, cs@.len() as int));
        if cs[i] == '=' {
            found = true;
            assert(out@ =~= out@ + Seq::<char>::empty());
        } else {
            out.push(cs[i]);
            i = i + 1;
            assert(out@ + before_eq(cs@.subrange(i as int, cs@.len() as int)) =~= out@.drop_last() + (
            seq![rest[0]] + before_eq(rest.drop_first())));
        }
    }
    if !found {
        assert(cs@.subrange(i as int, cs@.len() as int) =~= Seq::<char>::empty());
        assert(out@ =~= out@ + Seq::<char>::empty());
    }
    (found, string_of(&out))
}

/// Appends copies of `ws[lo..hi]` to `out`.
fn copy_words(out: &mut Vec<String>, ws: &Vec<String>, lo: usize, hi: usize)
    requires
        lo <= hi <= ws@.len(),
    ensures
        words_of(final(out)@) == words_of(old(out)@) + words_of(ws@).subrange(lo as int, hi as int),
{
    let mut k: usize = lo;
    while k < hi
        invariant
            lo <= k <= hi <= ws@.len(),
            words_of(out@) == words_of(old(out)@) + words_of(ws@).subrange(lo as int, k as int),
        decreases hi - k,
    {
        let ghost prev = out@;
        out.push(ws[k].clone());
        k = k + 1;
        assert(words_of(out@) =~= words_of(prev).push(ws@[k - 1]@));
        assert(words_of(ws@).subrange(lo as int, k as int) =~= words_of(ws@).subrange(lo as int, k - 1 as int).push(ws@[k - 1]@));
    }
}

/// The word lists of the type and identifier parts.
fn field_word_lists(gram_parts: &Vec<Stream>) -> (r: Vec<Vec<String>>)
    ensures
        r@.len() == field_parts(streams_view(gram_parts@)).len(),
        forall|k: int| 0 <= k < r@.len() ==> words_of(#[trigger] r@[k]@) == field_parts(streams_view(gram_parts@))[k],
{
    let mut out: Vec<Vec<String>> = Vec::new();
    let mut i: usize = 0;
    while i < gram_parts.len()
        invariant
            0 <= i <= gram_parts@.len(),
            out@.len() == field_parts(streams_view(gram_parts@).subrange(0, i as int)).len(),
            forall|k: int| 0 <= k < out@.len() ==> words_of(#[trigger] out@[k]@) == field_parts(
                streams_view(gram_parts@).subrange(0, i as int),
            )[k],
        decreases gram_parts@.len() - i,
    {
        let ghost now = streams_view(gram_parts@).subrange(0, i + 1 as int);
        assert(now.drop_last() =~= streams_view(gram_parts@).subrange(0, i as int));
        match &gram_parts[i] {
            Stream::Type(ws) => {
                let mut c: Vec<String> = Vec::new();
                copy_words(&mut c, ws, 0, ws.len());
                assert(words_of(ws@).subrange(0, ws@.len() as int) =~= words_of(ws@));
                assert(words_of(c@) =~= words_of(ws@));
                out.push(c);
            },
            Stream::Variable(v) => {
                let mut c: Vec<String> = Vec::new();
                c.push(v.clone());
                assert(words_of(c@) =~= seq![v@]);
                out.push(c);
            },
            _ => {},
        }
        i = i + 1;
    }
    assert(streams_view(gram_parts@).subrange(0, gram_parts@.len() as int) =~= streams_view(gram_parts@));
    out
}

/// The index of the first word that holds an `=`.
fn find_eq(ws: &Vec<String>) -> (r: usize)
    ensures
        r == first_eq(words_of(ws@)),
{
    let ghost w = words_of(ws@);
    let mut i: usize = 0;
    while i < ws.len()
        invariant
            0 <= i <= ws@.len(),
            w == words_of(ws@),
            first_eq(w) == eq_from(w, i as int),
        decreases ws@.len() - i,
    {
        let (eq, _) = split_eq(&ws[i]);
        if eq {
            return i;
        }
        i = i + 1;
    }
    i
}

/// Type and name where the initializer starts at `w`, after the words `pre`.
fn eq_decl_of(pre: &Vec<String>, w: &String) -> (r: (String, String))
    ensures
        (r.0@, r.1@) == eq_decl(words_of(pre@), w@),
{
    let ghost p = words_of(pre@);
    let (_, name) = split_eq(w);
    if !name.as_str().is_empty() {
        let ty = join_words(pre, 0, pre.len());
        assert(p.subrange(0, p.len() as int) =~= p);
        (ty, name)
    } else if pre.len() > 0 {
        let ty = join_words(pre, 0, pre.len() - 1);
        assert(p.subrange(0, p.len() - 1) =~= p.drop_last());
        (ty, pre[pre.len() - 1].clone())
    } else {
        (String::new(), String::new())
    }
}

/// The access modifier and the other modifiers among the parts.
fn modifiers_in(gram_parts: &Vec<Stream>, k: usize) -> (r: (String, Vec<String>))
    requires
        k <= gram_parts@.len(),
    ensures
        r.0@ == last_access(streams_view(gram_parts@).take(k as int)),
        words_of(r.1@) == modifiers_of(streams_view(gram_parts@).take(k as int)),
{
    let mut access = String::new();
    let mut mods: Vec<String> = Vec::new();
    let mut i: usize = 0;
    while i < k
        invariant
            0 <= i <= k <= gram_parts@.len(),
            access@ == last_access(streams_view(gram_parts@).subrange(0, i as int)),
            words_of(mods@) == modifiers_of(streams_view(gram_parts@).subrange(0, i as int)),
        decreases gram_parts@.len() - i,
    {
        let ghost now = streams_view(gram_parts@).subrange(0, i + 1 as int);
        assert(now.drop_last() =~= streams_view(gram_parts@).subrange(0, i as int));
        let ghost before = mods@;
        match &gram_parts[i] {
            Stream::Access(a) => access = a.clone(),
            Stream::Modifier(m) => {
                mods.push(m.clone());
                assert(words_of(mods@) =~= words_of(before).push(m@));
            },
            _ => {},
        }
        i = i + 1;
    }
    assert(streams_view(gram_parts@).subrange(0, k as int) =~= streams_view(gram_parts@).take(k as int));
    (access, mods)
}

/// The index of the part where a field declaration ends (see `cut_from`).
fn field_cut(gram_parts: &Vec<Stream>) -> (r: usize)
    ensures
        r == cut_from(streams_view(gram_parts@), 0, 0),
        r <= gram_parts@.len(),
{
    let ghost ps = streams_view(gram_parts@);
    let mut seen: usize = 0;
    let mut i: usize = 0;
    while i < gram_parts.len()
        invariant
            0 <= i <= gram_parts@.len(),
            ps == streams_view(gram_parts@),
            seen <= 1,
            cut_from(ps, 0, 0) == cut_from(ps, i as int, seen as nat),
        decreases gram_parts@.len() - i,
    {
        let words: Vec<String> = match &gram_parts[i] {
            Stream::Type(ws) => {
                let mut c: Vec<String> = Vec::new();
                copy_words(&mut c, ws, 0, ws.len());
                assert(words_of(ws@).subrange(0, ws@.len() as int) =~= words_of(ws@));
                c
            },
            Stream::Variable(v) => {
                let mut c: Vec<String> = Vec::new();
                c.push(v.clone());
                assert(words_of(c@) =~= seq![v@]);
                c
            },
            _ => Vec::new(),
        };
        let is_part = match &gram_parts[i] {
            Stream::Type(_) => true,
            Stream::Variable(_) => true,
            _ => false,
        };
        if is_part {
            assert(words_of(words@) == part_words_of(ps[i as int]));
            if seen >= 1 || find_eq(&words) < words.len() {
                return i;
            }
            seen = 1;
        }
        i = i + 1;
    }
    i
}

/// Reads a field declaration: its type, name, access and modifiers; an initializer
/// is dropped.
pub fn get_var(gram_parts: &Vec<Stream>, line: usize, signature: String) -> (r: Member)
    ensures
        r.var_type@ == field_decl(streams_view(gram_parts@)).0,
        r.name@ == field_decl(streams_view(gram_parts@)).1,
        r.access@ == last_access(field_head(streams_view(gram_parts@))),
        words_of(r.modifiers@) == modifiers_of(field_head(streams_view(gram_parts@))),
        r.line == line,
        r.signature == signature,
{
    let p = field_word_lists(gram_parts);
    let ghost fp = field_parts(streams_view(gram_parts@));
    let mut ty = String::new();
    let mut name = String::new();
    let mut decided = false;
    if p.len() >= 1 {
        let j0 = find_eq(&p[0]);
        if j0 < p[0].len() {
            let mut pre: Vec<String> = Vec::new();
            copy_words(&mut pre, &p[0], 0, j0);
            assert(words_of(pre@) =~= fp[0].take(j0 as int));
            let (t, n) = eq_decl_of(&pre, &p[0][j0]);
            ty = t;
            name = n;
            decided = true;
        }
    }
    if !decided && p.len() >= 2 {
        let j1 = find_eq(&p[1]);
        if j1 < p[1].len() {
            let mut pre: Vec<String> = Vec::new();
            copy_words(&mut pre, &p[0], 0, p[0].len());
            copy_words(&mut pre, &p[1], 0, j1);
            assert(words_of(p@[0]@).subrange(0, p@[0]@.len() as int) =~= fp[0]);
            assert(words_of(pre@) =~= fp[0] + fp[1].take(j1 as int));
            let (t, n) = eq_decl_of(&pre, &p[1][j1]);
            ty = t;
            name = n;
            decided = true;
        }
    }
    if !decided {
        if p.len() >= 1 {
            ty = join_words(&p[0], 0, p[0].len());
            assert(words_of(p@[0]@).subrange(0, p@[0]@.len() as int) =~= fp[0]);
        }
        if p.len() >= 2 {
            name = join_words(&p[1], 0, p[1].len());
            assert(words_of(p@[1]@).subrange(0, p@[1]@.len() as int) =~= fp[1]);
        }
    }
    let k = field_cut(gram_parts);
    let (access, modifiers) = modifiers_in(gram_parts, k);
    Member { var_type: ty, name, access, modifiers, line, signature }
}

// ---------------------------------------------------------------- methods

/// What an identifier of a method signature stands for, by what preceded it.
#[derive(Clone, Copy, Debug, PartialEq, Eq, Structural)]
pub enum MethodParseState {
    Exception,
    MethodName,
    ParamName,
    Other,
}

/// A method signature read so far.
pub struct MethodAcc {
    pub name: Seq<char>,
    pub return_type: Seq<char>,
    pub params: Seq<ParamView>,
    pub access: Seq<char>,
    pub modifiers: Seq<Seq<char>>,
    pub exceptions: Seq<ExceptionView>,
    pub param_type: Seq<char>,
    pub state: MethodParseState,
}

pub open spec fn method_start() -> MethodAcc {
    MethodAcc {
        name: Seq::empty(),
        return_type: Seq::empty(),
        params: Seq::empty(),
        access: Seq::empty(),
        modifiers: Seq::empty(),
        exceptions: Seq::empty(),
        param_type: Seq::empty(),
        state: MethodParseState::Other,
    }
}

/// The description given to a thrown exception: that of the first documented one,
/// where there is one.
pub open spec fn first_exception_desc(doc: Doc) -> Option<Seq<char>> {
    if doc.exceptions@.len() > 0 {
        Some(doc.exceptions@[0].desc@)
    } else {
        None
    }
}

/// One grammar part of a method signature. The first type is the return type and
/// the identifier after it the name; each later type and the identifier after it
/// make a parameter; identifiers after `throws` are thrown exceptions, recorded
/// where the documentation describes one. While no name is known, an identifier is
/// also taken as the return type.
pub open spec fn method_step(a: MethodAcc, p: StreamView, fe: Option<Seq<char>>) -> MethodAcc {
    match p {
        StreamView::Variable(v) => {
            let b = match a.state {
                MethodParseState::Exception => match fe {
                    Some(d) => MethodAcc {
                        exceptions: a.exceptions.push(ExceptionView { exception_type: v, desc: d }),
                        ..a
                    },
                    None => a,
                },
                MethodParseState::MethodName => MethodAcc { name: v, ..a },
                MethodParseState::ParamName => MethodAcc {
                    params: a.params.push(ParamView { var_type: a.param_type, name: v, desc: Seq::empty() }),
                    param_type: Seq::empty(),
                    ..a
                },
                MethodParseState::Other => a,
            };
            if b.name.len() == 0 {
                MethodAcc { return_type: v, ..b }
            } else {
                b
            }
        },
        StreamView::Type(ws) => if a.return_type.len() == 0 {
            MethodAcc { return_type: join_sp(ws), state: MethodParseState::MethodName, ..a }
        } else {
            MethodAcc { param_type: join_sp(ws), state: MethodParseState::ParamName, ..a }
        },
        StreamView::Access(x) => MethodAcc { access: x, ..a },
        StreamView::Modifier(x) => MethodAcc { modifiers: a.modifiers.push(x), ..a },
        StreamView::Exception => MethodAcc { state: MethodParseState::Exception, ..a },
        _ => a,
    }
}

pub open spec fn method_run(parts: Seq<StreamView>, fe: Option<Seq<char>>) -> MethodAcc
    decreases parts.len(),
{
    if parts.len() == 0 {
        method_start()
    } else {
        method_step(method_run(parts.drop_last(), fe), parts.last(), fe)
    }
}

/// The parts of declared parameters: each a type and then its name.
pub open spec fn pair_parts(ps: Seq<(Seq<Seq<char>>, Seq<char>)>) -> Seq<StreamView>
    decreases ps.len(),
{
    if ps.len() == 0 {
        Seq::empty()
    } else {
        pair_parts(ps.drop_last()) + seq![StreamView::Type(ps.last().0), StreamView::Variable(ps.last().1)]
    }
}

/// The declared parameters, without descriptions.
pub open spec fn declared_params(ps: Seq<(Seq<Seq<char>>, Seq<char>)>) -> Seq<ParamView> {
    Seq::new(ps.len(), |i: int| ParamView { var_type: join_sp(ps[i].0), name: ps[i].1, desc: Seq::empty() })
}

/// Whether every part is an access or other modifier.
pub open spec fn only_modifiers(mods: Seq<StreamView>) -> bool {
    forall|i: int| 0 <= i < mods.len() ==> (#[trigger] mods[i] is Access || mods[i] is Modifier)
}

proof fn modifiers_run(mods: Seq<StreamView>, fe: Option<Seq<char>>)
    requires
        only_modifiers(mods),
    ensures
        method_run(mods, fe).name.len() == 0,
        method_run(mods, fe).return_type.len() == 0,
        method_run(mods, fe).params.len() == 0,
        method_run(mods, fe).state == MethodParseState::Other,
    decreases mods.len(),
{
    if mods.len() > 0 {
        assert(mods.last() == mods[mods.len() - 1]);
        modifiers_run(mods.drop_last(), fe);
    }
}

proof fn pairs_run(head: Seq<StreamView>, ps: Seq<(Seq<Seq<char>>, Seq<char>)>, fe: Option<Seq<char>>)
    requires
        method_run(head, fe).name.len() > 0,
        method_run(head, fe).return_type.len() > 0,
    ensures
        method_run(head + pair_parts(ps), fe).name == method_run(head, fe).name,
        method_run(head + pair_parts(ps), fe).return_type == method_run(head, fe).return_type,
        method_run(head + pair_parts(ps), fe).params == method_run(head, fe).params + declared_params(ps),
    decreases ps.len(),
{
    if ps.len() == 0 {
        assert(head + pair_parts(ps) =~= head);
        assert(method_run(head, fe).params + declared_params(ps) =~= method_run(head, fe).params);
    } else {
        let pre = ps.drop_last();
        pairs_run(head, pre, fe);
        let x = head + pair_parts(pre);
        let y = x.push(StreamView::Type(ps.last().0));
        let z = y.push(StreamView::Variable(ps.last().1));
        assert(head + pair_parts(ps) =~= z);
        assert(z.drop_last() =~= y);
        assert(y.drop_last() =~= x);
        assert(z.last() == StreamView::Variable(ps.last().1));
        assert(y.last() == StreamView::Type(ps.last().0));
        assert(method_run(y, fe) == method_step(method_run(x, fe), StreamView::Type(ps.last().0), fe));
        assert(method_run(z, fe) == method_step(method_run(y, fe), StreamView::Variable(ps.last().1), fe));
        assert(method_run(head, fe).params + declared_params(ps) =~= (method_run(head, fe).params
            + declared_params(pre)).push(ParamView { var_type: join_sp(ps.last().0), name: ps.last().1, desc: Seq::empty() }));
    }
}

/// A signature made of modifiers, a return type and name, and then declared
/// parameters, each a type and a name, declares exactly those parameters in order,
/// each with its type and name and no description yet; reconciling then gives each
/// the description documented under its name (see `reconcile_law`).
pub proof fn signature_params_law(
    mods: Seq<StreamView>,
    t: Seq<Seq<char>>,
    n: Seq<char>,
    ps: Seq<(Seq<Seq<char>>, Seq<char>)>,
    fe: Option<Seq<char>>,
)
    requires
        only_modifiers(mods),
        join_sp(t).len() > 0,
        n.len() > 0,
    ensures
        ({
            let a = method_run(mods + seq![StreamView::Type(t), StreamView::Variable(n)] + pair_parts(ps), fe);
            &&& a.name == n
            &&& a.return_type == join_sp(t)
            &&& a.params == declared_params(ps)
        }),
{
    modifiers_run(mods, fe);
    let y = mods.push(StreamView::Type(t));
    let head = y.push(StreamView::Variable(n));
    assert(mods + seq![StreamView::Type(t), StreamView::Variable(n)] =~= head);
    assert(head.drop_last() =~= y);
    assert(y.drop_last() =~= mods);
    assert(y.last() == StreamView::Type(t));
    assert(head.last() == StreamView::Variable(n));
    assert(method_run(y, fe) == method_step(method_run(mods, fe), StreamView::Type(t), fe));
    assert(method_run(head, fe) == method_step(method_run(y, fe), StreamView::Variable(n), fe));
    pairs_run(head, ps, fe);
    assert(Seq::<ParamView>::empty() + declared_params(ps) =~= declared_params(ps));
}

/// Whether the exec record `m` holds what `a` says, but for its parameters.
pub open spec fn holds_acc(m: Method, param_type: Seq<char>, state: MethodParseState, a: MethodAcc) -> bool {
    &&& m.name@ == a.name
    &&& m.return_type@ == a.return_type
    &&& params_view(m.parameters@) == a.params
    &&& m.access@ == a.access
    &&& words_of(m.modifiers@) == a.modifiers
    &&& exceptions_view(m.exceptions@) == a.exceptions
    &&& param_type == a.param_type
    &&& state == a.state
}

/// Reads a method signature. A documented return text replaces the return type, a
/// documented description is adopted, and the parameters are reconciled with the
/// documented ones.
pub fn get_method(gram_parts: &Vec<Stream>, java_doc: &Doc, line: usize, signature: String) -> (r: Method)
    ensures
        ({
            let a = method_run(streams_view(gram_parts@), first_exception_desc(*java_doc));
            &&& r.name@ == a.name
            &&& r.return_type@ == if java_doc.return_desc@.len() > 0 {
                java_doc.return_desc@
            } else {
                a.return_type
            }
            &&& params_view(r.parameters@) == reconciled(a.params, params_view(java_doc.params@))
            &&& r.access@ == a.access
            &&& words_of(r.modifiers@) == a.modifiers
            &&& exceptions_view(r.exceptions@) == a.exceptions
            &&& r.description@ == java_doc.description@
            &&& r.line == line
            &&& r.signature == signature
        }),
{
    let ghost fe = first_exception_desc(*java_doc);
    let mut method = Method {
        name: String::new(),
        return_type: String::new(),
        parameters: Vec::new(),
        access: String::new(),
        modifiers: Vec::new(),
        exceptions: Vec::new(),
        description: String::new(),
        line,
        signature,
    };
    let mut param_type = String::new();
    let mut state = MethodParseState::Other;
    proof {
        assert(params_view(method.parameters@) =~= Seq::empty());
        assert(words_of(method.modifiers@) =~= Seq::empty());
        assert(exceptions_view(method.exceptions@) =~= Seq::empty());
        assert(method.name@ =~= Seq::empty() && method.return_type@ =~= Seq::empty());
        assert(method.access@ =~= Seq::empty() && param_type@ =~= Seq::empty());
        assert(streams_view(gram_parts@).subrange(0, 0) =~= Seq::empty());
    }
    let mut i: usize = 0;
    while i < gram_parts.len()
        invariant
            0 <= i <= gram_parts@.len(),
            fe == first_exception_desc(*java_doc),
            method.line == line,
            method.signature == signature,
            holds_acc(method, param_type@, state, method_run(streams_view(gram_parts@).subrange(0, i as int), fe)),
        decreases gram_parts@.len() - i,
    {
        let ghost now = streams_view(gram_parts@).subrange(0, i + 1 as int);
        assert(now.drop_last() =~= streams_view(gram_parts@).subrange(0, i as int));
        let ghost params0 = method.parameters@;
        let ghost mods0 = method.modifiers@;
        let ghost excs0 = method.exceptions@;
        match &gram_parts[i] {
            Stream::Variable(var) => {
                match state {
                    MethodParseState::Exception => {
                        if java_doc.exceptions.len() > 0 {
                            let e = Exception {
                                desc: java_doc.exceptions[0].desc.clone(),
                                exception_type: var.clone(),
                            };
                            method.exceptions.push(e);
                            assert(exceptions_view(method.exceptions@) =~= exceptions_view(excs0).push(e@));
                        }
                    },
                    MethodParseState::MethodName => method.name = var.clone(),
                    MethodParseState::ParamName => {
                        let p = Param { var_type: param_type, name: var.clone(), desc: String::new() };
                        method.parameters.push(p);
                        assert(params_view(method.parameters@) =~= params_view(params0).push(p@));
                        param_type = String::new();
                    },
                    MethodParseState::Other => {},
                }
                if method.name.as_str().is_empty() {
                    method.return_type = var.clone();
                }
            },
            Stream::Type(ws) => {
                let t = join_words(ws, 0, ws.len());
                assert(words_of(ws@).subrange(0, ws@.len() as int) =~= words_of(ws@));
                if method.return_type.as_str().is_empty() {
                    method.return_type = t;
                    state = MethodParseState::MethodName;
                } else {
                    param_type = t;
                    state = MethodParseState::ParamName;
                }
            },
            Stream::Access(key) => method.access = key.clone(),
            Stream::Modifier(key) => {
                method.modifiers.push(key.clone());
                assert(words_of(method.modifiers@) =~= words_of(mods0).push(key@));
            },
            Stream::Exception => state = MethodParseState::Exception,
            _ => {},
        }
        i = i + 1;
    }
    assert(streams_view(gram_parts@).subrange(0, gram_parts@.len() as int) =~= streams_view(gram_parts@));
    if !java_doc.return_desc.as_str().is_empty() {
        method.return_type = java_doc.return_desc.clone();
    }
    method.description = java_doc.description.clone();
    let n_params = match_params(&method, &java_doc.params);
    method.parameters = n_params;
    method
}

// ---------------------------------------------------------------- object headers

/// What an identifier of an object header stands for, by what preceded it.
#[derive(Clone, Copy, Debug, PartialEq, Eq, Structural)]
pub enum ObjectParseState {
    Implement,
    Exception,
    Parent,
    ClassName,
    Other,
}

/// An object header read so far.
pub struct ObjAcc {
    pub name: Seq<char>,
    pub parent: Seq<char>,
    pub interfaces: Seq<Seq<char>>,
    pub exceptions: Seq<ExceptionView>,
    pub access: Seq<char>,
    pub modifiers: Seq<Seq<char>>,
    pub state: ObjectParseState,
}

/// What `ob` holds of a header, before any part of a new one is read.
pub open spec fn obj_start(ob: Object) -> ObjAcc {
    ObjAcc {
        name: ob.name@,
        parent: ob.parent@,
        interfaces: words_of(ob.interfaces@),
        exceptions: exceptions_view(ob.exceptions@),
        access: ob.access@,
        modifiers: words_of(ob.modifiers@),
        state: ObjectParseState::Other,
    }
}

/// One grammar part of an object header: the identifier after the type keyword is
/// the name, those after `extends` the parent, after `implements` the implemented
/// interfaces, after `throws` exceptions.
pub open spec fn obj_step(a: ObjAcc, p: StreamView) -> ObjAcc {
    match p {
        StreamView::Variable(v) => match a.state {
            ObjectParseState::Implement => ObjAcc { interfaces: a.interfaces.push(v), ..a },
            ObjectParseState::Exception => ObjAcc {
                exceptions: a.exceptions.push(ExceptionView { exception_type: v, desc: Seq::empty() }),
                ..a
            },
            ObjectParseState::ClassName => ObjAcc { name: v, ..a },
            ObjectParseState::Parent => ObjAcc { parent: v, ..a },
            ObjectParseState::Other => a,
        },
        StreamView::Object(_) => ObjAcc { state: ObjectParseState::ClassName, ..a },
        StreamView::Access(x) => ObjAcc { access: x, ..a },
        StreamView::Modifier(x) => ObjAcc { modifiers: a.modifiers.push(x), ..a },
        StreamView::Exception => ObjAcc { state: ObjectParseState::Exception, ..a },
        StreamView::Implement => ObjAcc { state: ObjectParseState::Implement, ..a },
        StreamView::Parent => ObjAcc { state: ObjectParseState::Parent, ..a },
        _ => a,
    }
}

pub open spec fn obj_run(start: ObjAcc, parts: Seq<StreamView>) -> ObjAcc
    decreases parts.len(),
{
    if parts.len() == 0 {
        start
    } else {
        obj_step(obj_run(start, parts.drop_last()), parts.last())
    }
}

/// Whether `ob` holds what `a` says of a header.
pub open spec fn holds_obj(ob: Object, st: ObjectParseState, a: ObjAcc) -> bool {
    &&& ob.name@ == a.name
    &&& ob.parent@ == a.parent
    &&& words_of(ob.interfaces@) == a.interfaces
    &&& exceptions_view(ob.exceptions@) == a.exceptions
    &&& ob.access@ == a.access
    &&& words_of(ob.modifiers@) == a.modifiers
    &&& st == a.state
}

/// Whether the parts of `o` that a header does not touch are those of `p`.
pub open spec fn same_body(o: Object, p: Object) -> bool {
    &&& o.state == p.state
    &&& o.package_name == p.package_name
    &&& o.dependencies == p.dependencies
    &&& o.license == p.license
    &&& o.variables == p.variables
    &&& o.methods == p.methods
    &&& o.fields == p.fields
}

/// Reads an object header into `ob`, and stamps it with the signature line and the
/// description, author and version of its documentation.
pub fn get_object(gram_parts: &Vec<Stream>, java_doc: &Doc, sign: String, ob: &mut Object)
    ensures
        ({
            let a = obj_run(obj_start(*old(ob)), streams_view(gram_parts@));
            &&& final(ob).name@ == a.name
            &&& final(ob).parent@ == a.parent
            &&& words_of(final(ob).interfaces@) == a.interfaces
            &&& exceptions_view(final(ob).exceptions@) == a.exceptions
            &&& final(ob).access@ == a.access
            &&& words_of(final(ob).modifiers@) == a.modifiers
        }),
        same_body(*final(ob), *old(ob)),
        final(ob).signature == sign,
        final(ob).description@ == java_doc.description@,
        final(ob).author@ == java_doc.author@,
        final(ob).version@ == java_doc.version@,
{
    let ghost start = obj_start(*ob);
    let mut state = ObjectParseState::Other;
    assert(streams_view(gram_parts@).subrange(0, 0) =~= Seq::empty());
    let mut i: usize = 0;
    while i < gram_parts.len()
        invariant
            0 <= i <= gram_parts@.len(),
            same_body(*ob, *old(ob)),
            start == obj_start(*old(ob)),
            holds_obj(*ob, state, obj_run(start, streams_view(gram_parts@).subrange(0, i as int))),
        decreases gram_parts@.len() - i,
    {
        let ghost now = streams_view(gram_parts@).subrange(0, i + 1 as int);
        assert(now.drop_last() =~= streams_view(gram_parts@).subrange(0, i as int));
        let ghost ifs0 = ob.interfaces@;
        let ghost mods0 = ob.modifiers@;
        let ghost excs0 = ob.exceptions@;
        match &gram_parts[i] {
            Stream::Variable(var) => match state {
                ObjectParseState::Implement => {
                    ob.interfaces.push(var.clone());
                    assert(words_of(ob.interfaces@) =~= words_of(ifs0).push(var@));
                },
                ObjectParseState::Exception => {
                    let e = Exception { desc: String::new(), exception_type: var.clone() };
                    ob.exceptions.push(e);
                    assert(exceptions_view(ob.exceptions@) =~= exceptions_view(excs0).push(e@));
                },
                ObjectParseState::ClassName => ob.name = var.clone(),
                ObjectParseState::Parent => ob.parent = var.clone(),
                ObjectParseState::Other => {},
            },
            Stream::Object(_) => state = ObjectParseState::ClassName,
            Stream::Access(key) => ob.access = key.clone(),
            Stream::Modifier(key) => {
                ob.modifiers.push(key.clone());
                assert(words_of(ob.modifiers@) =~= words_of(mods0).push(key@));
            },
            Stream::Exception => state = ObjectParseState::Exception,
            Stream::Implement => state = ObjectParseState::Implement,
            Stream::Parent => state = ObjectParseState::Parent,
            _ => {},
        }
        i = i + 1;
    }
    assert(streams_view(gram_parts@).subrange(0, gram_parts@.len() as int) =~= streams_view(gram_parts@));
    ob.signature = sign;
    ob.description = java_doc.description.clone();
    ob.author = java_doc.author.clone();
    ob.version = java_doc.version.clone();
}

} // verus!
