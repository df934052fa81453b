use vstd::prelude::*;

verus! {

/// An absolute filesystem path, held as the names of its components below the root.
///
/// `/home/me/style.css` is held as `["home", "me", "style.css"]`; the root itself is
/// the empty sequence.
pub struct StylePath {
    pub segments: Vec<String>,
}

impl View for StylePath {
    type V = Seq<Seq<char>>;

    open spec fn view(&self) -> Seq<Seq<char>> {
        self.segments@.map_values(|s: String| s@)
    }
}

/// The directory that holds `p`, or nothing for the root.
pub open spec fn parent_of(p: Seq<Seq<char>>) -> Option<Seq<Seq<char>>> {
    if p.len() == 0 {
        None
    } else {
        Some(p.drop_last())
    }
}

impl StylePath {
    /// True exactly when both paths name the same components.
    pub fn same_path(&self, other: &StylePath) -> (r: bool)
        ensures
            r == (self@ == other@),
    {
        let n = self.segments.len();
        if n != other.segments.len() {
            proof {
                assert(self@.len() != other@.len());
            }
            return false;
        }
        let mut i: usize = 0;
        while i < n
            invariant
                n == self.segments.len(),
                n == other.segments.len(),
                0 <= i <= n,
                forall|k: int| 0 <= k < i ==> self@[k] == other@[k],
            decreases n - i,
        {
            if self.segments[i] != other.segments[i] {
                proof {
                    assert(self@[i as int] != other@[i as int]);
                }
                return false;
            }
            i = i + 1;
        }
        proof {
            assert(self@ =~= other@);
        }
        true
    }

    /// A copy of this path.
    pub fn copied(&self) -> (r: StylePath)
        ensures
            r@ == self@,
    {
        let n = self.segments.len();
        let mut segments: Vec<String> = Vec::new();
        let mut i: usize = 0;
        while i < n
            invariant
                n == self.segments.len(),
                0 <= i <= n,
                segments@.len() == i,
                forall|k: int| 0 <= k < i ==> segments@[k]@ == self.segments@[k]@,
            decreases n - i,
        {
            segments.push(self.segments[i].clone());
            i = i + 1;
        }
        let r = StylePath { segments };
        proof {
            assert(r@ =~= self@);
        }
        r
    }

    /// The directory that holds this path: `None` for the root.
    pub fn parent(&self) -> (r: Option<StylePath>)
        ensures
            match r {
                Some(d) => parent_of(self@) == Some(d@),
                None => parent_of(self@) is None,
            },
    {
        let n = self.segments.len();
        if n == 0 {
            return None;
        }
        let mut segments: Vec<String> = Vec::new();
        let mut i: usize = 0;
        while i + 1 < n
            invariant
                n == self.segments.len(),
                n > 0,
                0 <= i < n,
                segments@.len() == i,
                forall|k: int| 0 <= k < i ==> segments@[k]@ == self.segments@[k]@,
            decreases n - i,
        {
            segments.push(self.segments[i].clone());
            i = i + 1;
        }
        let d = StylePath { segments };
        proof {
            assert(d@ =~= self@.drop_last());
        }
        Some(d)
    }
}

} // verus!
