//! The outcome of a decomposition walk: WITH-clause texts and discovered
//! SELECT statements, each SELECT paired with the text of its nearest
//! enclosing WITH clause (if it sits in the scope of one).

use vstd::prelude::*;
use vstd::string::StringExecFns;

verus! {

broadcast use vstd::std_specs::vec::group_vec_axioms, vstd::seq::group_seq_axioms;

/// One SELECT discovered during a walk: its canonical text, and the text of
/// the nearest enclosing WITH clause when the SELECT sits in the scope of one.
pub struct Extracted {
    pub text: String,
    pub with_text: Option<String>,
}

/// The mathematical value of an `Extracted`.
#[verifier::ext_equal]
pub struct SelModel {
    pub text: Seq<char>,
    pub with_text: Option<Seq<char>>,
}

impl View for Extracted {
    type V = SelModel;

    open spec fn view(&self) -> SelModel {
        SelModel {
            text: self.text@,
            with_text: match self.with_text {
                Option::Some(w) => Option::Some(w@),
                Option::None => Option::None,
            },
        }
    }
}

/// The mathematical value of a walk's outcome: the WITH-clause texts and the
/// discovered SELECTs, both in traversal order.
#[verifier::ext_equal]
pub struct Model {
    pub withs: Seq<Seq<char>>,
    pub selects: Seq<SelModel>,
}

pub open spec fn texts_of(v: Seq<String>) -> Seq<Seq<char>> {
    v.map_values(|s: String| s@)
}

pub open spec fn sels_of(v: Seq<Extracted>) -> Seq<SelModel> {
    v.map_values(|x: Extracted| x@)
}

pub open spec fn m_empty() -> Model {
    Model { withs: Seq::empty(), selects: Seq::empty() }
}

pub open spec fn m_add(a: Model, b: Model) -> Model {
    Model { withs: a.withs + b.withs, selects: a.selects + b.selects }
}

/// An outcome holding one WITH text and nothing else.
pub open spec fn m_with(t: Seq<char>) -> Model {
    Model { withs: seq![t], selects: Seq::empty() }
}

/// An outcome holding one SELECT text, not yet tied to any WITH clause.
pub open spec fn m_select(t: Seq<char>) -> Model {
    Model { withs: Seq::empty(), selects: seq![SelModel { text: t, with_text: Option::None }] }
}

pub broadcast proof fn lemma_m_add_assoc(a: Model, b: Model, c: Model)
    ensures
        #[trigger] m_add(m_add(a, b), c) == m_add(a, m_add(b, c)),
{
    assert(m_add(m_add(a, b), c) =~= m_add(a, m_add(b, c)));
}

pub broadcast proof fn lemma_m_add_empty_left(a: Model)
    ensures
        #[trigger] m_add(m_empty(), a) == a,
{
    assert(m_add(m_empty(), a) =~= a);
}

pub broadcast proof fn lemma_m_add_empty_right(a: Model)
    ensures
        #[trigger] m_add(a, m_empty()) == a,
{
    assert(m_add(a, m_empty()) =~= a);
}

pub broadcast group group_model_lemmas {
    lemma_m_add_assoc,
    lemma_m_add_empty_left,
    lemma_m_add_empty_right,
}

/// A SELECT already in the scope of some WITH clause keeps its own (nearest)
/// clause; one not yet in any scope is tied to the given clause.
pub open spec fn attach_one(s: SelModel, w: Seq<char>) -> SelModel {
    if s.with_text is None {
        SelModel { text: s.text, with_text: Option::Some(w) }
    } else {
        s
    }
}

/// Tie every SELECT not yet in the scope of a WITH clause to the given one.
pub open spec fn attach_all(sels: Seq<SelModel>, w: Seq<char>) -> Seq<SelModel> {
    sels.map_values(|s: SelModel| attach_one(s, w))
}

/// A SELECT's standalone text: its own text, prefixed with its nearest
/// enclosing WITH clause when it has one, so that its CTE references still
/// resolve when it is run on its own.
pub open spec fn prefixed(s: SelModel) -> Seq<char> {
    match s.with_text {
        Option::Some(w) => w + " "@ + s.text,
        Option::None => s.text,
    }
}

pub open spec fn prefixed_all(sels: Seq<SelModel>) -> Seq<Seq<char>> {
    sels.map_values(|s: SelModel| prefixed(s))
}

/// The accumulating value a walk builds: WITH texts and discovered SELECTs.
pub struct Found {
    pub withs: Vec<String>,
    pub selects: Vec<Extracted>,
}

impl View for Found {
    type V = Model;

    open spec fn view(&self) -> Model {
        Model { withs: texts_of(self.withs@), selects: sels_of(self.selects@) }
    }
}

impl Found {
    pub fn new() -> (r: Found)
        ensures
            r@ == m_empty(),
    {
        let r = Found { withs: Vec::new(), selects: Vec::new() };
        proof {
            assert(r@ =~= m_empty());
        }
        r
    }

    /// Record the text of one WITH clause.
    pub fn push_with(&mut self, t: String)
        ensures
            final(self)@ == m_add(old(self)@, m_with(t@)),
    {
        let ghost pre = self.withs@;
        self.withs.push(t);
        proof {
            assert(texts_of(self.withs@) =~= texts_of(pre) + seq![t@]);
            assert(final(self)@ =~= m_add(old(self)@, m_with(t@)));
        }
    }

    /// Record one discovered SELECT, not yet tied to any WITH clause.
    pub fn push_select(&mut self, t: String)
        ensures
            final(self)@ == m_add(old(self)@, m_select(t@)),
    {
        let ghost pre = self.selects@;
        let e = Extracted { text: t, with_text: None };
        let ghost ev = e@;
        self.selects.push(e);
        proof {
            assert(sels_of(self.selects@) =~= sels_of(pre) + seq![ev]);
            assert(final(self)@ =~= m_add(old(self)@, m_select(ev.text)));
        }
    }

    /// Append another walk's outcome after this one, keeping both orders.
    pub fn absorb(&mut self, other: Found)
        ensures
            final(self)@ == m_add(old(self)@, other@),
    {
        let ghost pre_w = self.withs@;
        let ghost pre_s = self.selects@;
        let mut other = other;
        let ghost ow = other.withs@;
        let ghost os = other.selects@;
        self.withs.append(&mut other.withs);
        self.selects.append(&mut other.selects);
        proof {
            assert(texts_of(pre_w + ow) =~= texts_of(pre_w) + texts_of(ow));
            assert(sels_of(pre_s + os) =~= sels_of(pre_s) + sels_of(os));
            assert(final(self)@ =~= m_add(old(self)@, Model { withs: texts_of(ow), selects: sels_of(os) }));
        }
    }
}

/// Rebuild a list of discovered SELECTs with every one not yet in the scope
/// of a WITH clause tied to the given clause's text.
pub fn attached(sels: &Vec<Extracted>, w: &String) -> (r: Vec<Extracted>)
    ensures
        sels_of(r@) == attach_all(sels_of(sels@), w@),
{
    let mut r: Vec<Extracted> = Vec::new();
    let n = sels.len();
    for i in 0..n
        invariant
            n == sels.len(),
            r@.len() == i,
            forall|j: int| 0 <= j < i ==> sels_of(r@)[j] == attach_all(sels_of(sels@), w@)[j],
    {
        let t = sels[i].text.clone();
        let wt: Option<String> = match &sels[i].with_text {
            Option::None => Some(w.clone()),
            Option::Some(x) => Some(x.clone()),
        };
        let e = Extracted { text: t, with_text: wt };
        proof {
            assert(e@ == attach_one(sels@[i as int]@, w@));
        }
        let ghost prev = r@;
        r.push(e);
        proof {
            assert forall|j: int| 0 <= j <= i as int implies sels_of(r@)[j] == attach_all(
                sels_of(sels@),
                w@,
            )[j] by {
                assert(sels_of(r@)[j] == r@[j]@);
                assert(attach_all(sels_of(sels@), w@)[j] == attach_one(sels_of(sels@)[j], w@));
                assert(sels_of(sels@)[j] == sels@[j]@);
                if j < i as int {
                    assert(r@[j] == prev[j]);
                    assert(sels_of(prev)[j] == prev[j]@);
                }
            }
        }
    }
    proof {
        assert(sels_of(r@) =~= attach_all(sels_of(sels@), w@));
    }
    r
}

/// Materialize each discovered SELECT as one standalone text: the SELECT's
/// own text, prefixed with its nearest enclosing WITH clause when it has one.
pub fn prefixed_texts(sels: &Vec<Extracted>) -> (r: Vec<String>)
    ensures
        texts_of(r@) == prefixed_all(sels_of(sels@)),
{
    let mut r: Vec<String> = Vec::new();
    let n = sels.len();
    for i in 0..n
        invariant
            n == sels.len(),
            r@.len() == i,
            forall|j: int| 0 <= j < i ==> texts_of(r@)[j] == prefixed_all(sels_of(sels@))[j],
    {
        let t: String = match &sels[i].with_text {
            Option::Some(w) => {
                let mut s = w.clone();
                s.append(" ");
                s.append(sels[i].text.as_str());
                s
            },
            Option::None => sels[i].text.clone(),
        };
        proof {
            assert(t@ == prefixed(sels@[i as int]@));
        }
        let ghost prev = r@;
        r.push(t);
        proof {
            assert forall|j: int| 0 <= j <= i as int implies texts_of(r@)[j] == prefixed_all(
                sels_of(sels@),
            )[j] by {
                assert(texts_of(r@)[j] == r@[j]@);
                assert(prefixed_all(sels_of(sels@))[j] == prefixed(sels_of(sels@)[j]));
                assert(sels_of(sels@)[j] == sels@[j]@);
                if j < i as int {
                    assert(r@[j] == prev[j]);
                    assert(texts_of(prev)[j] == prev[j]@);
                }
            }
        }
    }
    proof {
        assert(texts_of(r@) =~= prefixed_all(sels_of(sels@)));
    }
    r
}

} // verus!
