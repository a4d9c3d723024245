//! A filesystem path modelled as its decoded components.
//!
//! The prompt only ever reads a path component by component: it strips a
//! repository root, takes a final directory name, abbreviates interior
//! components. Holding the components as plain strings lets all of that be
//! verified; conversion from `std::path` values happens at the boundary.

use vstd::prelude::*;
use vstd::string::*;

verus! {

/// The views of a sequence of component strings.
pub open spec fn views_of(comps: Seq<String>) -> Seq<Seq<char>> {
    comps.map_values(|s: String| s@)
}

/// Mapping views distributes over appending one component.
proof fn lemma_views_of_push(comps: Seq<String>, s: String)
    ensures
        views_of(comps.push(s)) =~= views_of(comps).push(s@),
{
}

/// A path as its ordered components, without separators.
///
/// An absolute path `/a/b` and the relative path `a/b` both carry the
/// components `a`, `b`; which display they get is the caller's choice.
pub struct Pathname {
    components: Vec<String>,
}

impl View for Pathname {
    type V = Seq<Seq<char>>;

    closed spec fn view(&self) -> Seq<Seq<char>> {
        views_of(self.components@)
    }
}

/// Components joined by `/`: the display of a relative path.
pub open spec fn join_slash(comps: Seq<Seq<char>>) -> Seq<char>
    decreases comps.len(),
{
    if comps.len() == 0 {
        Seq::empty()
    } else if comps.len() == 1 {
        comps[0]
    } else {
        join_slash(comps.drop_last()) + seq!['/'] + comps.last()
    }
}

/// `/` followed by the joined components: the display of an absolute path.
pub open spec fn abs_display(comps: Seq<Seq<char>>) -> Seq<char> {
    seq!['/'] + join_slash(comps)
}

/// The first character of each non-empty component, as one-character texts.
pub open spec fn first_chars(comps: Seq<Seq<char>>) -> Seq<Seq<char>>
    decreases comps.len(),
{
    if comps.len() == 0 {
        Seq::empty()
    } else {
        let rest = first_chars(comps.drop_last());
        if comps.last().len() == 0 {
            rest
        } else {
            rest.push(seq![comps.last()[0]])
        }
    }
}

/// The compact display of a path: every component but the last shortened to
/// its first character (empty components skipped), the last one in full.
/// A path of at most one component is displayed unabbreviated.
pub open spec fn abbrev_spec(comps: Seq<Seq<char>>) -> Seq<char> {
    if comps.len() <= 1 {
        join_slash(comps)
    } else {
        join_slash(first_chars(comps.drop_last())) + seq!['/'] + comps.last()
    }
}

/// Law: a path of at most one component abbreviates to itself — the same
/// text as its unabbreviated display.
pub proof fn lemma_abbrev_short_identity(comps: Seq<Seq<char>>)
    requires
        comps.len() <= 1,
    ensures
        abbrev_spec(comps) == join_slash(comps),
{
}

/// With every component non-empty, each component contributes exactly its
/// first character.
proof fn lemma_first_chars_dense(comps: Seq<Seq<char>>)
    requires
        forall|i: int| 0 <= i < comps.len() ==> (#[trigger] comps[i]).len() > 0,
    ensures
        first_chars(comps).len() == comps.len(),
        forall|i: int|
            0 <= i < comps.len() ==> #[trigger] first_chars(comps)[i] == seq![comps[i][0]],
    decreases comps.len(),
{
    if comps.len() > 0 {
        let t = comps.drop_last();
        assert(forall|i: int| 0 <= i < t.len() ==> #[trigger] t[i] == comps[i]);
        lemma_first_chars_dense(t);
        assert(first_chars(comps) == first_chars(t).push(seq![comps.last()[0]]));
        assert forall|i: int| 0 <= i < comps.len() implies #[trigger] first_chars(comps)[i]
            == seq![comps[i][0]] by {
            if i < t.len() {
                assert(first_chars(comps)[i] == first_chars(t)[i]);
            }
        }
    }
}

/// The `/`-joined display of one-character components: their characters
/// alternating with slashes.
proof fn lemma_join_slash_singletons(cs: Seq<Seq<char>>)
    requires
        cs.len() >= 1,
        forall|i: int| 0 <= i < cs.len() ==> (#[trigger] cs[i]).len() == 1,
    ensures
        join_slash(cs) =~= Seq::new(
            (2 * cs.len() - 1) as nat,
            |j: int|
                if j % 2 == 0 {
                    cs[j / 2][0]
                } else {
                    '/'
                },
        ),
    decreases cs.len(),
{
    if cs.len() > 1 {
        let t = cs.drop_last();
        assert(forall|i: int| 0 <= i < t.len() ==> #[trigger] t[i] == cs[i]);
        lemma_join_slash_singletons(t);
    }
}

/// Law: a multi-component path abbreviates to exactly one `/`-joined
/// character per interior component, followed by `/` and the final
/// component in full. The interior components must be non-empty: an empty
/// one is skipped and contributes nothing.
pub proof fn lemma_abbrev_multi_shape(comps: Seq<Seq<char>>)
    requires
        comps.len() >= 2,
        forall|i: int| 0 <= i < comps.len() - 1 ==> (#[trigger] comps[i]).len() > 0,
    ensures
        abbrev_spec(comps) =~= Seq::new(
            (2 * (comps.len() - 1)) as nat,
            |j: int|
                if j % 2 == 0 {
                    comps[j / 2][0]
                } else {
                    '/'
                },
        ) + comps.last(),
{
    let interior = comps.drop_last();
    assert(forall|i: int| 0 <= i < interior.len() ==> #[trigger] interior[i] == comps[i]);
    lemma_first_chars_dense(interior);
    let fc = first_chars(interior);
    assert(forall|i: int| 0 <= i < fc.len() ==> (#[trigger] fc[i]).len() == 1);
    lemma_join_slash_singletons(fc);
    assert(abbrev_spec(comps) =~= Seq::new(
        (2 * (comps.len() - 1)) as nat,
        |j: int|
            if j % 2 == 0 {
                comps[j / 2][0]
            } else {
                '/'
            },
    ) + comps.last());
}

impl Pathname {
    /// A path from its components.
    pub fn from_components(components: Vec<String>) -> (r: Pathname)
        ensures
            r@ == views_of(components@),
    {
        Pathname { components }
    }

    /// The path's components.
    pub fn components(&self) -> (r: &Vec<String>)
        ensures
            views_of(r@) == self@,
    {
        &self.components
    }

    /// How many components the path has.
    pub fn len(&self) -> (r: usize)
        ensures
            r == self@.len(),
    {
        self.components.len()
    }

    /// The display of the path taken as relative: components joined by `/`.
    pub fn rel_string(&self) -> (r: String)
        ensures
            r@ == join_slash(self@),
    {
        let r = join_components(&self.components, self.components.len());
        proof {
            assert(self@.take(self@.len() as int) =~= self@);
        }
        r
    }

    /// The display of the path taken as absolute: a leading `/`, then the
    /// components joined by `/`.
    pub fn abs_string(&self) -> (r: String)
        ensures
            r@ == abs_display(self@),
    {
        let r = self.abs_prefix_string(self.components.len());
        proof {
            assert(self@.take(self@.len() as int) =~= self@);
        }
        r
    }

    /// The absolute display of the path's first `n` components: the ancestor
    /// of the path that keeps `n` components.
    pub fn abs_prefix_string(&self, n: usize) -> (r: String)
        requires
            n <= self@.len(),
        ensures
            r@ == abs_display(self@.take(n as int)),
    {
        let mut r = String::new();
        r.append("/");
        let joined = join_components(&self.components, n);
        let r = r.concat(joined.as_str());
        proof {
            reveal_strlit("/");
            assert(r@ =~= abs_display(self@.take(n as int)));
        }
        r
    }

    /// The path made of this path's first `n` components.
    pub fn prefix_path(&self, n: usize) -> (r: Pathname)
        requires
            n <= self@.len(),
        ensures
            r@ == self@.take(n as int),
    {
        let mut components: Vec<String> = Vec::new();
        let mut i: usize = 0;
        while i < n
            invariant
                0 <= i <= n,
                n <= self@.len(),
                n <= self.components@.len(),
                views_of(components@) =~= self@.take(i as int),
            decreases n - i,
        {
            let ghost prev = components@;
            let c = self.components[i].clone();
            proof {
                lemma_views_of_push(prev, c);
            }
            components.push(c);
            proof {
                assert(views_of(components@) =~= self@.take(i + 1));
            }
            i = i + 1;
        }
        Pathname { components }
    }

    /// The path made of this path's components from position `from` on.
    pub fn suffix_path(&self, from: usize) -> (r: Pathname)
        requires
            from <= self@.len(),
        ensures
            r@ == self@.skip(from as int),
    {
        let n = self.components.len();
        let mut components: Vec<String> = Vec::new();
        let mut i: usize = from;
        while i < n
            invariant
                from <= i <= n,
                n == self@.len(),
                n == self.components@.len(),
                views_of(components@) =~= self@.subrange(from as int, i as int),
            decreases n - i,
        {
            let ghost prev = components@;
            let c = self.components[i].clone();
            proof {
                lemma_views_of_push(prev, c);
            }
            components.push(c);
            proof {
                assert(views_of(components@) =~= self@.subrange(from as int, i + 1));
            }
            i = i + 1;
        }
        let r = Pathname { components };
        proof {
            assert(self@.subrange(from as int, n as int) =~= self@.skip(from as int));
        }
        r
    }

    /// The display of the path's components from position `from` on, joined
    /// by `/`.
    pub fn suffix_string(&self, from: usize) -> (r: String)
        requires
            from <= self@.len(),
        ensures
            r@ == join_slash(self@.skip(from as int)),
    {
        let rest = self.suffix_path(from);
        rest.rel_string()
    }

    /// Whether two paths have the same components.
    pub fn same_as(&self, other: &Pathname) -> (r: bool)
        ensures
            r == (self@ == other@),
    {
        if self.components.len() != other.components.len() {
            proof {
                assert(self@.len() != other@.len());
            }
            return false;
        }
        let n = self.components.len();
        let mut i: usize = 0;
        while i < n
            invariant
                0 <= i <= n,
                n == self@.len() == other@.len(),
                n == self.components@.len() == other.components@.len(),
                forall|j: int| 0 <= j < i ==> self@[j] == other@[j],
            decreases n - i,
        {
            if self.components[i] != other.components[i] {
                proof {
                    assert(self@[i as int] != other@[i as int]);
                }
                return false;
            }
            i = i + 1;
        }
        proof {
            assert(self@ =~= other@);
        }
        true
    }

    /// Whether this path's components are a leading prefix of another's.
    pub fn is_prefix_of(&self, other: &Pathname) -> (r: bool)
        ensures
            r == self@.is_prefix_of(other@),
    {
        if self.components.len() > other.components.len() {
            proof {
                assert(self@.len() > other@.len());
                assert(!self@.is_prefix_of(other@));
            }
            return false;
        }
        let n = self.components.len();
        let mut i: usize = 0;
        while i < n
            invariant
                0 <= i <= n,
                n == self@.len(),
                n == self.components@.len(),
                n <= other@.len(),
                n <= other.components@.len(),
                forall|j: int| 0 <= j < i ==> self@[j] == other@[j],
            decreases n - i,
        {
            if self.components[i] != other.components[i] {
                proof {
                    assert(self@[i as int] != other@[i as int]);
                    assert(!self@.is_prefix_of(other@));
                }
                return false;
            }
            i = i + 1;
        }
        proof {
            assert(self@ =~= other@.subrange(0, n as int));
        }
        true
    }
}

/// The first `n` components of `comps` joined by `/`.
fn join_components(comps: &Vec<String>, n: usize) -> (r: String)
    requires
        n <= comps@.len(),
    ensures
        r@ == join_slash(views_of(comps@).take(n as int)),
{
    let ghost all = views_of(comps@);
    let mut r = String::new();
    let mut i: usize = 0;
    while i < n
        invariant
            0 <= i <= n,
            n <= comps@.len(),
            all == views_of(comps@),
            r@ == join_slash(all.take(i as int)),
        decreases n - i,
    {
        if i > 0 {
            r.append("/");
        }
        r.append(comps[i].as_str());
        proof {
            reveal_strlit("/");
            assert(all.take(i + 1).drop_last() =~= all.take(i as int));
            assert(all.take(i + 1).last() == all[i as int]);
            if i == 0 {
                assert(join_slash(all.take(1)) == all[0]);
            }
            assert(r@ =~= join_slash(all.take(i + 1)));
        }
        i = i + 1;
    }
    r
}

} // verus!
