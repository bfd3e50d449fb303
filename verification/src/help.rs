//! Per-level help descriptions shown by the interactive front end.

use vstd::prelude::*;

verus! {

/// The maximum depth of nested components that may register help text.
pub open spec fn spec_max_component_depth() -> int {
    8
}

/// Help descriptions, one optional entry per component nesting level.
pub struct HelpContext {
    /// The description registered at each level, if any.
    pub help_descs: Vec<Option<String>>,
}

impl HelpContext {
    /// True of every well-formed context: one slot per permitted level.
    pub open spec fn wf(self) -> bool {
        self.help_descs@.len() == spec_max_component_depth()
    }

    /// A context with no description registered at any level.
    pub fn new() -> (r: HelpContext)
        ensures
            r.wf(),
            forall|i: int|
                0 <= i < spec_max_component_depth() ==> r.help_descs@[i] is None,
    {
        let mut v: Vec<Option<String>> = Vec::new();
        let mut i: usize = 0;
        while i < 8
            invariant
                i <= 8,
                v@.len() == i,
                forall|j: int| 0 <= j < i ==> v@[j] is None,
            decreases 8 - i,
        {
            v.push(None);
            i += 1;
        }
        HelpContext { help_descs: v }
    }

    /// The joined help text of the registered descriptions from `descs` on:
    /// each contributes its text, separated by a comma and a space; levels
    /// without a description are skipped. `first` says whether no
    /// description has been emitted yet.
    pub open spec fn spec_help_text(descs: Seq<Option<String>>, first: bool) -> Seq<char>
        decreases descs.len(),
    {
        if descs.len() == 0 {
            Seq::empty()
        } else {
            match descs[0] {
                Some(d) => (if first {
                    Seq::<char>::empty()
                } else {
                    ", "@
                }) + d@ + Self::spec_help_text(descs.drop_first(), false),
                None => Self::spec_help_text(descs.drop_first(), first),
            }
        }
    }

    /// Joins the registered descriptions, top level first, separated by
    /// a comma and a space; levels without a description are skipped.
    pub fn into_help_string(&self) -> (r: String)
        ensures
            r@ == Self::spec_help_text(self.help_descs@, true),
    {
        let mut out: String = String::new();
        let mut first: bool = true;
        let n: usize = self.help_descs.len();
        let mut i: usize = 0;
        proof {
            assert(self.help_descs@.skip(0) =~= self.help_descs@);
        }
        while i < n
            invariant
                i <= n,
                n == self.help_descs@.len(),
                out@ + Self::spec_help_text(self.help_descs@.skip(i as int), first)
                    == Self::spec_help_text(self.help_descs@, true),
            decreases n - i,
        {
            proof {
                assert(self.help_descs@.skip(i as int).drop_first() =~= self.help_descs@.skip(
                    i as int + 1,
                ));
                assert(self.help_descs@.skip(i as int)[0] == self.help_descs@[i as int]);
            }
            match &self.help_descs[i] {
                Some(desc) => {
                    if !first {
                        out.append(", ");
                    }
                    out.append(desc.as_str());
                    first = false;
                },
                None => {},
            }
            assert(out@ + Self::spec_help_text(self.help_descs@.skip(i as int + 1), first)
                =~= Self::spec_help_text(self.help_descs@, true));
            i += 1;
        }
        assert(self.help_descs@.skip(n as int) =~= Seq::<Option<String>>::empty());
        assert(out@ =~= Self::spec_help_text(self.help_descs@, true));
        out
    }

    /// Registers `desc` at `level`; levels beyond the permitted depth are
    /// ignored.
    pub fn update_desc_at_level(&mut self, desc: &str, level: usize)
        requires
            old(self).wf(),
        ensures
            final(self).wf(),
            level < spec_max_component_depth() ==> {
                &&& final(self).help_descs@[level as int] matches Some(d) && d@ == desc@
                &&& forall|i: int|
                    0 <= i < spec_max_component_depth() && i != level
                        ==> final(self).help_descs@[i] == old(self).help_descs@[i]
            },
            level >= spec_max_component_depth() ==> final(self).help_descs@ == old(
                self,
            ).help_descs@,
    {
        if level >= 8 {
            return ;
        }
        self.help_descs.set(level, Some(desc.to_owned()));
    }

    /// Clears every description registered strictly below `level`.
    pub fn clear_below_level(&mut self, level: usize)
        requires
            old(self).wf(),
        ensures
            final(self).wf(),
            forall|i: int|
                0 <= i < spec_max_component_depth() ==> final(self).help_descs@[i] == (if i
                    > level {
                    Option::<String>::None
                } else {
                    old(self).help_descs@[i]
                }),
    {
        if level >= 8 {
            return ;
        }
        let mut i: usize = level + 1;
        while i < 8
            invariant
                old(self).wf(),
                self.wf(),
                level + 1 <= i,
                i <= 8 || i == level + 1,
                forall|j: int|
                    0 <= j < spec_max_component_depth() ==> self.help_descs@[j] == (if level < j
                        < i {
                        Option::<String>::None
                    } else {
                        old(self).help_descs@[j]
                    }),
            decreases 8 - i,
        {
            self.help_descs.set(i, None);
            i += 1;
        }
    }
}

} // verus!
