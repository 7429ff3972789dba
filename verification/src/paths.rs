//! Paths, as far as discovery looks into them.

use crate::text::str_eq;
use vstd::prelude::*;
use vstd::std_specs::cmp::{PartialEqSpec, PartialEqSpecImpl};

verus! {

/// An absolute path: a root, and the components that lead down from it.
#[derive(Debug, Eq, Hash)]
pub struct AbsoluteSystemPathBuf {
    root: String,
    components: Vec<String>,
}

/// The mathematical content of an [`AbsoluteSystemPathBuf`].
#[verifier::ext_equal]
pub struct SystemPathView {
    pub root: Seq<char>,
    pub components: Seq<Seq<char>>,
}

/// The characters of each text.
pub open spec fn texts_of(texts: Seq<String>) -> Seq<Seq<char>> {
    texts.map_values(|text: String| text@)
}

impl SystemPathView {
    /// The path without its last component, if it has one.
    pub open spec fn parent(self) -> Option<Self> {
        if self.components.len() == 0 {
            None
        } else {
            Some(SystemPathView { root: self.root, components: self.components.drop_last() })
        }
    }

    /// The path with one more component.
    pub open spec fn join_component(self, segment: Seq<char>) -> Self {
        SystemPathView { root: self.root, components: self.components.push(segment) }
    }
}

impl View for AbsoluteSystemPathBuf {
    type V = SystemPathView;

    closed spec fn view(&self) -> SystemPathView {
        SystemPathView { root: self.root@, components: texts_of(self.components@) }
    }
}

/// The first `count` of the texts, copied.
fn clone_texts(texts: &Vec<String>, count: usize) -> (res: Vec<String>)
    requires
        count <= texts@.len(),
    ensures
        texts_of(res@) == texts_of(texts@).take(count as int),
{
    let mut res: Vec<String> = Vec::new();
    let mut i: usize = 0;
    while i < count
        invariant
            i <= count <= texts@.len(),
            texts_of(res@) == texts_of(texts@).take(i as int),
        decreases count - i,
    {
        let text: String = texts[i].clone();
        let ghost before = texts_of(res@);
        res.push(text);
        i += 1;
        assert(texts_of(res@) == before.push(text@));
        assert(texts_of(texts@).take(i as int) == texts_of(texts@).take(i - 1).push(text@));
    }
    res
}

impl AbsoluteSystemPathBuf {
    /// The path that leads from `root` down the components.
    pub fn new(root: String, components: Vec<String>) -> (res: Self)
        ensures
            res@ == (SystemPathView { root: root@, components: texts_of(components@) }),
            res@.root == root@,
            res@.components.len() == components@.len(),
            forall|i: int|
                0 <= i < components@.len() ==> #[trigger] res@.components[i] == components@[i]@,
    {
        AbsoluteSystemPathBuf { root, components }
    }

    /// Where the path starts.
    pub fn root(&self) -> (res: &str)
        ensures
            res@ == self@.root,
    {
        self.root.as_str()
    }

    /// What leads down from the root.
    pub fn components(&self) -> (res: &Vec<String>)
        ensures
            texts_of(res@) == self@.components,
            res@.len() == self@.components.len(),
            forall|i: int|
                0 <= i < res@.len() ==> (#[trigger] res@[i])@ == self@.components[i],
    {
        &self.components
    }

    /// Whether the path is that of a root, and so has no parent.
    pub fn is_root(&self) -> (res: bool)
        ensures
            res == (self@.parent() is None),
            res <==> self@.components.len() == 0,
    {
        self.components.len() == 0
    }

    /// The directory that the path lies in. A root lies in none.
    pub fn parent(&self) -> (res: Option<AbsoluteSystemPathBuf>)
        ensures
            res is Some <==> self@.parent() is Some,
            res matches Some(parent) ==> self@.parent() == Some(parent@),
            res is Some <==> self@.components.len() > 0,
            res matches Some(parent) ==> {
                &&& parent@.root == self@.root
                &&& parent@.components == self@.components.drop_last()
            },
    {
        if self.components.len() == 0 {
            None
        } else {
            let components: Vec<String> = clone_texts(&self.components, self.components.len() - 1);
            Some(AbsoluteSystemPathBuf { root: self.root.clone(), components })
        }
    }

    /// The path with `segment` as one more component.
    pub fn join_component(&self, segment: &str) -> (res: AbsoluteSystemPathBuf)
        ensures
            res@ == self@.join_component(segment@),
            res@.root == self@.root,
            res@.components == self@.components.push(segment@),
    {
        let mut components: Vec<String> = clone_texts(&self.components, self.components.len());
        let name: String = segment.to_owned();
        let ghost before = texts_of(components@);
        components.push(name);
        assert(texts_of(components@) == before.push(segment@));
        AbsoluteSystemPathBuf { root: self.root.clone(), components }
    }
}

/// Whether the texts are the same, one by one.
fn texts_eq(a: &Vec<String>, b: &Vec<String>) -> (res: bool)
    ensures
        res == (texts_of(a@) == texts_of(b@)),
{
    if a.len() != b.len() {
        assert(texts_of(a@).len() != texts_of(b@).len());
        return false;
    }
    let mut i: usize = 0;
    while i < a.len()
        invariant
            a@.len() == b@.len(),
            i <= a@.len(),
            forall|j: int| 0 <= j < i ==> texts_of(a@)[j] == texts_of(b@)[j],
        decreases a@.len() - i,
    {
        if !str_eq(a[i].as_str(), b[i].as_str()) {
            assert(texts_of(a@)[i as int] != texts_of(b@)[i as int]);
            return false;
        }
        i += 1;
    }
    assert(texts_of(a@) == texts_of(b@));
    true
}

impl PartialEqSpecImpl for AbsoluteSystemPathBuf {
    open spec fn obeys_eq_spec() -> bool {
        true
    }

    open spec fn eq_spec(&self, other: &Self) -> bool {
        self@ == other@
    }
}

impl PartialEq for AbsoluteSystemPathBuf {
    fn eq(&self, other: &Self) -> (res: bool)
        ensures
            res <==> self@.root == other@.root && self@.components == other@.components,
    {
        str_eq(self.root.as_str(), other.root.as_str()) && texts_eq(
            &self.components,
            &other.components,
        )
    }
}

impl Clone for AbsoluteSystemPathBuf {
    fn clone(&self) -> (res: Self)
        ensures
            res@ == self@,
            res@.root == self@.root,
            res@.components == self@.components,
    {
        AbsoluteSystemPathBuf {
            root: self.root.clone(),
            components: clone_texts(&self.components, self.components.len()),
        }
    }
}

/// A path relative to a workspace, with `/` between its components.
#[derive(Debug, PartialEq, Eq, PartialOrd, Ord, Hash)]
pub struct RelativeUnixPathBuf(pub String);

impl Clone for RelativeUnixPathBuf {
    fn clone(&self) -> (res: Self)
        ensures
            res == *self,
    {
        RelativeUnixPathBuf(self.0.clone())
    }
}

/// The parent of a path has the same root and all components but the last; a
/// path without components has none.
pub proof fn law_parent(path: SystemPathView)
    ensures
        path.parent() is None <==> path.components.len() == 0,
        path.parent() matches Some(parent) ==> {
            &&& parent.root == path.root
            &&& parent.components.len() == path.components.len() - 1
            &&& parent.components.push(path.components.last()) == path.components
        },
{
    if path.components.len() > 0 {
        assert(path.components.drop_last().push(path.components.last()) == path.components);
    }
}

/// Two paths compare equal just when they start at the same root and have the
/// same components in the same order.
pub proof fn law_path_eq(a: AbsoluteSystemPathBuf, b: AbsoluteSystemPathBuf)
    ensures
        <AbsoluteSystemPathBuf as PartialEqSpec>::obeys_eq_spec(),
        PartialEqSpec::eq_spec(&a, &b) <==> {
            &&& a@.root == b@.root
            &&& a@.components.len() == b@.components.len()
            &&& forall|i: int|
                0 <= i < a@.components.len() ==> #[trigger] a@.components[i] == b@.components[i]
        },
{
    if a@.components.len() == b@.components.len() && forall|i: int|
        0 <= i < a@.components.len() ==> #[trigger] a@.components[i] == b@.components[i] {
        assert(a@.components == b@.components);
    }
}

/// The characters of texts are those of each text, in the same order.
pub proof fn law_texts_of(texts: Seq<String>)
    ensures
        texts_of(texts).len() == texts.len(),
        forall|i: int| 0 <= i < texts.len() ==> #[trigger] texts_of(texts)[i] == texts[i]@,
{
}

/// An entry of a directory lies in that directory, and is found again in the
/// directory that it lies in.
pub proof fn law_entry_of_directory(path: SystemPathView, segment: Seq<char>)
    ensures
        path.join_component(segment).parent() == Some(path),
        path.parent() matches Some(parent) ==> parent.join_component(path.components.last())
            == path,
{
    assert(path.components.push(segment).drop_last() == path.components);
    if path.components.len() > 0 {
        assert(path.components.drop_last().push(path.components.last()) == path.components);
    }
}

} // verus!
