use vstd::prelude::*;

use crate::text::{chars_of, tail_is, text_of};

verus! {

/// What a source URL points at.
#[derive(Debug, Clone, Copy, PartialEq, Eq, Structural)]
pub enum ListKind {
    Video,
    List,
    Unknown,
}

/// Order in which the extractor lists the items of a source.
#[derive(Debug, Clone, Copy, PartialEq, Eq, Structural)]
pub enum ListOrder {
    NewestFirst,
    OldestFirst,
    Unknown,
}

/// One alternative view of a source offered by its provider.
#[derive(Debug, Clone)]
pub struct ListTab {
    pub url: String,
    pub label: String,
}

/// Metadata derived from the extractor on each refresh.
#[derive(Debug, Clone)]
pub struct SourceMetadata {
    pub uploader: String,
    pub items: u64,
    pub source_provider: String,
    pub list_kind: ListKind,
    pub list_count: Option<u64>,
    pub list_order: ListOrder,
    pub list_tab: Option<String>,
    pub list_tabs: Vec<ListTab>,
}

/// A user-declared content origin. Instants are seconds since the epoch.
#[derive(Debug, Clone)]
pub struct Source {
    pub id: i32,
    pub url: String,
    pub fetch_last_days: i32,
    pub refresh_frequency: i32,
    pub sponsorblock: String,
    pub metadata: Option<SourceMetadata>,
    pub last_refreshed_at: Option<i64>,
    pub last_scheduled_refresh: Option<i64>,
}

/// Sponsor segment categories that a download removes.
#[derive(Debug, Clone, Copy, Default, PartialEq, Eq, Structural)]
pub struct SponsorBlockCategories {
    pub sponsor: bool,
    pub intro: bool,
    pub outro: bool,
    pub selfpromo: bool,
    pub preview: bool,
    pub filler: bool,
    pub interaction: bool,
    pub music_offtopic: bool,
}

/// Name of category `i` in the fixed order of the list.
pub open spec fn category_name(i: int) -> Seq<char> {
    if i == 0 {
        "sponsor"@
    } else if i == 1 {
        "intro"@
    } else if i == 2 {
        "outro"@
    } else if i == 3 {
        "selfpromo"@
    } else if i == 4 {
        "preview"@
    } else if i == 5 {
        "filler"@
    } else if i == 6 {
        "interaction"@
    } else {
        "music_offtopic"@
    }
}

pub open spec fn category_flag(c: SponsorBlockCategories, i: int) -> bool {
    if i == 0 {
        c.sponsor
    } else if i == 1 {
        c.intro
    } else if i == 2 {
        c.outro
    } else if i == 3 {
        c.selfpromo
    } else if i == 4 {
        c.preview
    } else if i == 5 {
        c.filler
    } else if i == 6 {
        c.interaction
    } else {
        c.music_offtopic
    }
}

/// Names of the enabled categories among the first `n`, in list order.
pub open spec fn enabled_names(c: SponsorBlockCategories, n: int) -> Seq<Seq<char>>
    decreases n,
{
    if n <= 0 {
        Seq::empty()
    } else if category_flag(c, n - 1) {
        enabled_names(c, n - 1).push(category_name(n - 1))
    } else {
        enabled_names(c, n - 1)
    }
}

/// The items joined with commas.
pub open spec fn join_commas(ns: Seq<Seq<char>>) -> Seq<char>
    decreases ns.len(),
{
    if ns.len() == 0 {
        Seq::empty()
    } else if ns.len() == 1 {
        ns[0]
    } else {
        join_commas(ns.drop_last()) + ","@ + ns.last()
    }
}

/// The comma-separated pieces of a text; a text without comma is one piece.
pub open spec fn segments(s: Seq<char>) -> Seq<Seq<char>>
    decreases s.len(),
{
    if s.len() == 0 {
        seq![Seq::empty()]
    } else {
        let p = segments(s.drop_last());
        if s.last() == ',' {
            p.push(Seq::empty())
        } else {
            p.drop_last().push(p.last().push(s.last()))
        }
    }
}

pub open spec fn serialized(c: SponsorBlockCategories) -> Seq<char> {
    join_commas(enabled_names(c, 8))
}

/// A category is enabled by a text when one of its comma-separated pieces
/// is the category's name.
pub open spec fn enabled_by(s: Seq<char>, i: int) -> bool {
    segments(s).contains(category_name(i))
}

pub open spec fn comma_free(w: Seq<char>) -> bool {
    forall|k: int| 0 <= k < w.len() ==> w[k] != ','
}

proof fn lemma_segments_len(s: Seq<char>)
    ensures
        segments(s).len() > 0,
    decreases s.len(),
{
    if s.len() > 0 {
        lemma_segments_len(s.drop_last());
    }
}

/// Appending comma-free text extends the last piece.
proof fn lemma_segments_extend(x: Seq<char>, y: Seq<char>)
    requires
        comma_free(y),
    ensures
        segments(x + y) == segments(x).drop_last().push(segments(x).last() + y),
    decreases y.len(),
{
    lemma_segments_len(x);
    if y.len() == 0 {
        assert(x + y =~= x);
        assert(segments(x).last() + y =~= segments(x).last());
        assert(segments(x).drop_last().push(segments(x).last()) =~= segments(x));
    } else {
        let y0 = y.drop_last();
        lemma_segments_extend(x, y0);
        assert((x + y).drop_last() =~= x + y0);
        assert((x + y).last() == y.last());
        lemma_segments_len(x + y0);
        let p = segments(x + y0);
        assert(p.drop_last() =~= segments(x).drop_last());
        assert(p.last() == segments(x).last() + y0);
        assert(p.last().push(y.last()) =~= segments(x).last() + y);
        assert(segments(x + y) =~= segments(x).drop_last().push(segments(x).last() + y));
    }
}

proof fn lemma_segments_of_join(ns: Seq<Seq<char>>)
    requires
        ns.len() > 0,
        forall|i: int| 0 <= i < ns.len() ==> comma_free(#[trigger] ns[i]),
    ensures
        segments(join_commas(ns)) == ns,
    decreases ns.len(),
{
    if ns.len() == 1 {
        lemma_segments_extend(Seq::empty(), ns[0]);
        assert(Seq::<char>::empty() + ns[0] =~= ns[0]);
        assert(segments(Seq::<char>::empty()).drop_last().push(Seq::<char>::empty() + ns[0]) =~= ns);
    } else {
        let init = ns.drop_last();
        lemma_segments_of_join(init);
        let x = join_commas(init) + ","@;
        reveal_strlit(",");
        assert(x.drop_last() =~= join_commas(init));
        assert(x.last() == ',');
        assert(segments(x) == init.push(Seq::empty()));
        lemma_segments_extend(x, ns.last());
        assert(segments(x).last() + ns.last() =~= ns.last());
        assert(init.push(Seq::empty()).drop_last() =~= init);
        assert(init.push(ns.last()) =~= ns);
    }
}

proof fn lemma_names() 
    ensures
        forall|i: int| 0 <= i < 8 ==> comma_free(#[trigger] category_name(i)) && category_name(i).len() > 0,
        forall|i: int, j: int| 0 <= i < 8 && 0 <= j < 8 && i != j ==> category_name(i) != category_name(j),
{
    reveal_strlit("sponsor");
    reveal_strlit("intro");
    reveal_strlit("outro");
    reveal_strlit("selfpromo");
    reveal_strlit("preview");
    reveal_strlit("filler");
    reveal_strlit("interaction");
    reveal_strlit("music_offtopic");
    assert forall|i: int, j: int| 0 <= i < 8 && 0 <= j < 8 && i != j implies category_name(i)
        != category_name(j) by {
        let a = category_name(i);
        let b = category_name(j);
        assert(a.len() != b.len() || a[0] != b[0]);
    }
}

proof fn lemma_enabled_names(c: SponsorBlockCategories, n: int)
    requires
        0 <= n <= 8,
    ensures
        forall|k: int| 0 <= k < enabled_names(c, n).len() ==> comma_free(#[trigger] enabled_names(c, n)[k]),
        forall|i: int| 0 <= i < 8 ==> (enabled_names(c, n).contains(#[trigger] category_name(i)) <==> (i < n && category_flag(c, i))),
    decreases n,
{
    lemma_names();
    if n > 0 {
        lemma_enabled_names(c, n - 1);
        let p = enabled_names(c, n - 1);
        if category_flag(c, n - 1) {
            let q = p.push(category_name(n - 1));
            assert(enabled_names(c, n) == q);
            assert forall|k: int| 0 <= k < q.len() implies comma_free(#[trigger] q[k]) by {
                if k == p.len() {
                    assert(q[k] == category_name(n - 1));
                } else {
                    assert(q[k] == p[k]);
                }
            }
            assert forall|i: int| 0 <= i < 8 implies (q.contains(#[trigger] category_name(i)) <==> (i < n && category_flag(c, i))) by {
                if q.contains(category_name(i)) {
                    let k = choose|k: int| 0 <= k < q.len() && q[k] == category_name(i);
                    if k < p.len() {
                        assert(p[k] == q[k]);
                        assert(p.contains(category_name(i)));
                    } else {
                        assert(category_name(i) == category_name(n - 1));
                    }
                }
                if i < n && category_flag(c, i) {
                    if i == n - 1 {
                        assert(q[p.len() as int] == category_name(i));
                    } else {
                        let k = choose|k: int| 0 <= k < p.len() && p[k] == category_name(i);
                        assert(q[k] == category_name(i));
                    }
                }
            }
        } else {
            assert(enabled_names(c, n) == p);
            assert forall|i: int| 0 <= i < 8 implies (p.contains(#[trigger] category_name(i)) <==> (i < n && category_flag(c, i))) by {
                if i == n - 1 {
                    assert(!p.contains(category_name(i)));
                }
            }
        }
    }
}

/// Reading the text that the categories are written as gives the same
/// categories back.
pub proof fn lemma_sponsorblock_round_trip(c: SponsorBlockCategories)
    ensures
        forall|i: int| 0 <= i < 8 ==> (enabled_by(serialized(c), i) <==> category_flag(c, i)),
{
    lemma_names();
    lemma_enabled_names(c, 8);
    let ns = enabled_names(c, 8);
    if ns.len() == 0 {
        assert(serialized(c) =~= Seq::<char>::empty());
        assert forall|i: int| 0 <= i < 8 implies !enabled_by(serialized(c), i) by {
            if segments(Seq::<char>::empty()).contains(category_name(i)) {
                let k = choose|k: int| 0 <= k < 1 && segments(Seq::<char>::empty())[k] == category_name(i);
                assert(category_name(i).len() > 0);
            }
        }
    } else {
        lemma_segments_of_join(ns);
    }
}

fn is_text(seg: &Vec<char>, lit: &str) -> (r: bool)
    ensures
        r == (seg@ == lit@),
{
    assert(seg@.skip(0) =~= seg@);
    tail_is(seg, 0, lit)
}

impl SponsorBlockCategories {
    pub fn none() -> (r: SponsorBlockCategories)
        ensures
            forall|i: int| #![auto] 0 <= i < 8 ==> !category_flag(r, i),
    {
        SponsorBlockCategories {
            sponsor: false,
            intro: false,
            outro: false,
            selfpromo: false,
            preview: false,
            filler: false,
            interaction: false,
            music_offtopic: false,
        }
    }

    fn mark(&mut self, seg: &Vec<char>)
        ensures
            forall|i: int|
                #![auto]
                0 <= i < 8 ==> category_flag(*final(self), i) == (category_flag(*old(self), i)
                    || seg@ == category_name(i)),
    {
        if is_text(seg, "sponsor") {
            self.sponsor = true;
        }
        if is_text(seg, "intro") {
            self.intro = true;
        }
        if is_text(seg, "outro") {
            self.outro = true;
        }
        if is_text(seg, "selfpromo") {
            self.selfpromo = true;
        }
        if is_text(seg, "preview") {
            self.preview = true;
        }
        if is_text(seg, "filler") {
            self.filler = true;
        }
        if is_text(seg, "interaction") {
            self.interaction = true;
        }
        if is_text(seg, "music_offtopic") {
            self.music_offtopic = true;
        }
    }

    /// Comma-separated names of the enabled categories, in list order, for
    /// example `sponsor,selfpromo`.
    pub fn serialize(&self) -> (r: String)
        ensures
            r@ == serialized(*self),
    {
        let mut names: Vec<&'static str> = Vec::new();
        if self.sponsor {
            names.push("sponsor");
        }
        if self.intro {
            names.push("intro");
        }
        if self.outro {
            names.push("outro");
        }
        if self.selfpromo {
            names.push("selfpromo");
        }
        if self.preview {
            names.push("preview");
        }
        if self.filler {
            names.push("filler");
        }
        if self.interaction {
            names.push("interaction");
        }
        if self.music_offtopic {
            names.push("music_offtopic");
        }
        let ghost views = names@.map_values(|t: &str| t@);
        proof {
            reveal_with_fuel(enabled_names, 9);
            assert(views =~= enabled_names(*self, 8));
        }
        let mut out = String::new();
        let mut i: usize = 0;
        while i < names.len()
            invariant
                i <= names@.len(),
                views == names@.map_values(|t: &str| t@),
                out@ == join_commas(views.take(i as int)),
            decreases names@.len() - i,
        {
            proof {
                reveal_strlit(",");
                assert(views.take(i + 1).drop_last() =~= views.take(i as int));
            }
            if i > 0 {
                out.append(",");
            }
            out.append(names[i]);
            i = i + 1;
            proof {
                if i == 1 {
                    assert(out@ =~= join_commas(views.take(i as int)));
                } else {
                    assert(out@ =~= join_commas(views.take(i as int)));
                }
            }
        }
        assert(views.take(i as int) =~= views);
        out
    }

    /// The categories named among the comma-separated pieces of a text;
    /// unknown names are ignored.
    pub fn deserialize(categories: &str) -> (r: SponsorBlockCategories)
        ensures
            forall|i: int| #![auto] 0 <= i < 8 ==> category_flag(r, i) == enabled_by(categories@, i),
    {
        let v = chars_of(categories);
        let mut r = SponsorBlockCategories::none();
        let mut cur: Vec<char> = Vec::new();
        let ghost mut done: Seq<Seq<char>> = Seq::empty();
        let mut i: usize = 0;
        assert(v@.take(0) =~= Seq::<char>::empty());
        assert(segments(Seq::<char>::empty()) =~= done.push(cur@));
        while i < v.len()
            invariant
                i <= v@.len(),
                v@ == categories@,
                segments(v@.take(i as int)) == done.push(cur@),
                forall|j: int| #![auto] 0 <= j < 8 ==> category_flag(r, j) == done.contains(category_name(j)),
            decreases v@.len() - i,
        {
            let c = v[i];
            assert(v@.take(i + 1).drop_last() =~= v@.take(i as int));
            if c == ',' {
                let ghost prev = done;
                r.mark(&cur);
                proof {
                    done = done.push(cur@);
                    assert forall|j: int| #![auto] 0 <= j < 8 implies category_flag(r, j) == done.contains(category_name(j)) by {
                        if prev.contains(category_name(j)) {
                            let k = choose|k: int| 0 <= k < prev.len() && prev[k] == category_name(j);
                            assert(done[k] == category_name(j));
                        }
                        if cur@ == category_name(j) {
                            assert(done[prev.len() as int] == category_name(j));
                        }
                        if done.contains(category_name(j)) {
                            let k = choose|k: int| 0 <= k < done.len() && done[k] == category_name(j);
                            if k < prev.len() {
                                assert(prev[k] == category_name(j));
                            }
                        }
                    }
                }
                cur = Vec::new();
                assert(segments(v@.take(i + 1)) =~= done.push(cur@));
            } else {
                cur.push(c);
                assert(segments(v@.take(i + 1)) =~= done.push(cur@));
            }
            i = i + 1;
        }
        assert(v@.take(i as int) =~= v@);
        let ghost prev = done;
        r.mark(&cur);
        proof {
            let all = prev.push(cur@);
            assert forall|j: int| #![auto] 0 <= j < 8 implies category_flag(r, j) == all.contains(category_name(j)) by {
                if prev.contains(category_name(j)) {
                    let k = choose|k: int| 0 <= k < prev.len() && prev[k] == category_name(j);
                    assert(all[k] == category_name(j));
                }
                if cur@ == category_name(j) {
                    assert(all[prev.len() as int] == category_name(j));
                }
                if all.contains(category_name(j)) {
                    let k = choose|k: int| 0 <= k < all.len() && all[k] == category_name(j);
                    if k < prev.len() {
                        assert(prev[k] == category_name(j));
                    }
                }
            }
        }
        r
    }
}

pub open spec fn non_empty_segments(s: Seq<char>) -> Seq<Seq<char>> {
    segments(s).filter(|w: Seq<char>| w.len() > 0)
}

impl Source {
    /// The non-empty comma-separated entries of the category list, as
    /// stored.
    pub fn get_sponsorblock_list(&self) -> (r: Vec<String>)
        ensures
            r@.map_values(|t: String| t@) == non_empty_segments(self.sponsorblock@),
    {
        let v = chars_of(self.sponsorblock.as_str());
        let mut out: Vec<String> = Vec::new();
        let mut cur: Vec<char> = Vec::new();
        let ghost mut done: Seq<Seq<char>> = Seq::empty();
        let mut i: usize = 0;
        assert(v@.take(0) =~= Seq::<char>::empty());
        assert(segments(Seq::<char>::empty()) =~= done.push(cur@));
        assert(done.filter(|w: Seq<char>| w.len() > 0) =~= Seq::<Seq<char>>::empty()) by {
            reveal(Seq::filter);
        }
        while i < v.len()
            invariant
                i <= v@.len(),
                v@ == self.sponsorblock@,
                segments(v@.take(i as int)) == done.push(cur@),
                out@.map_values(|t: String| t@) == done.filter(|w: Seq<char>| w.len() > 0),
            decreases v@.len() - i,
        {
            let c = v[i];
            assert(v@.take(i + 1).drop_last() =~= v@.take(i as int));
            if c == ',' {
                proof {
                    reveal(Seq::filter);
                    assert(done.push(cur@).drop_last() =~= done);
                }
                if cur.len() > 0 {
                    out.push(text_of(&cur));
                    assert(out@.map_values(|t: String| t@) =~= done.push(cur@).filter(
                        |w: Seq<char>| w.len() > 0,
                    ));
                } else {
                    assert(out@.map_values(|t: String| t@) =~= done.push(cur@).filter(
                        |w: Seq<char>| w.len() > 0,
                    ));
                }
                proof {
                    done = done.push(cur@);
                }
                cur = Vec::new();
                assert(segments(v@.take(i + 1)) =~= done.push(cur@));
            } else {
                cur.push(c);
                assert(segments(v@.take(i + 1)) =~= done.push(cur@));
            }
            i = i + 1;
        }
        assert(v@.take(i as int) =~= v@);
        proof {
            reveal(Seq::filter);
            assert(done.push(cur@).drop_last() =~= done);
        }
        if cur.len() > 0 {
            out.push(text_of(&cur));
        }
        assert(out@.map_values(|t: String| t@) =~= done.push(cur@).filter(|w: Seq<char>| w.len() > 0));
        out
    }

    /// The sponsor segment categories that downloads of this source remove.
    pub fn get_sponsorblock_categories(&self) -> (r: SponsorBlockCategories)
        ensures
            forall|i: int| #![auto] 0 <= i < 8 ==> category_flag(r, i) == enabled_by(self.sponsorblock@, i),
    {
        SponsorBlockCategories::deserialize(self.sponsorblock.as_str())
    }
}

} // verus!
