//! A single line of text, stored as a sequence of Unicode grapheme clusters,
//! each tagged with its display width in terminal columns.

use vstd::prelude::*;

verus! {

/// Upper bound on the graphemes one line may hold. It keeps every width sum
/// (at most two columns per grapheme) within `usize`, so positions on screen
/// never overflow. Mutations that would grow a line past it are no-ops.
pub const LINE_MAX: usize = usize::MAX / 2;

/// What unicode_segmentation's grapheme segmentation returns on a text: its
/// extended grapheme clusters, in order. A function of the characters alone.
pub uninterp spec fn grapheme_clusters(s: Seq<char>) -> Seq<Seq<char>>;

/// What unicode_width's width table returns for a text: its display width in
/// terminal columns. A function of the characters alone.
pub uninterp spec fn display_width(s: Seq<char>) -> int;

/// The views of a sequence of owned strings.
pub open spec fn views_of(strings: Seq<String>) -> Seq<Seq<char>> {
    strings.map_values(|s: String| s@)
}

/// Relies on unicode_segmentation's `graphemes(s, true)`: the extended
/// grapheme clusters of `s`, in order. The cluster boundaries partition the
/// text, so the clusters concatenate back to it, and, each cluster holding
/// at least one character, there are no more clusters than characters.
#[verifier::external_body]
fn split_graphemes(s: &str) -> (r: Vec<String>)
    ensures
        views_of(r@) == grapheme_clusters(s@),
        views_of(r@).flatten() == s@,
        r@.len() <= s@.len(),
{
    unicode_segmentation::UnicodeSegmentation::graphemes(s, true)
        .map(|g| g.to_string())
        .collect()
}

/// Relies on unicode_width's `UnicodeWidthStr::width`: the display width of a
/// text in terminal columns.
#[verifier::external_body]
fn measure_width(s: &str) -> (r: usize)
    ensures
        r == display_width(s@),
{
    unicode_width::UnicodeWidthStr::width(s)
}

/// Relies on `char::to_string`: a string holding exactly the one character.
#[verifier::external_body]
fn char_to_string(c: char) -> (r: String)
    ensures
        r@ == seq![c],
{
    c.to_string()
}

/// The display width a grapheme is given on screen: the width table's answer,
/// with zero (an isolated combining mark) raised to one column and anything
/// reported wider than two held at two.
pub open spec fn clamp_width(w: int) -> int {
    if w < 1 {
        1
    } else if w > 2 {
        2
    } else {
        w
    }
}

/// One user-perceived character: a grapheme cluster (possibly several code
/// points) and the number of terminal columns it occupies.
pub struct Grapheme {
    pub text: String,
    pub width: usize,
}

impl Grapheme {
    /// A grapheme occupies one or two columns; zero-width units are never
    /// isolated into a grapheme of their own.
    pub open spec fn wf(&self) -> bool {
        1 <= self.width <= 2
    }

    /// Tags one cluster of text with its clamped display width.
    pub fn new(text: String) -> (r: Grapheme)
        ensures
            r.wf(),
            r.text@ == text@,
            r.width == clamp_width(display_width(text@)),
    {
        let w = measure_width(text.as_str());
        let width = if w < 1 {
            1
        } else if w > 2 {
            2
        } else {
            w
        };
        Grapheme { text, width }
    }

    /// The grapheme a single typed character becomes.
    pub fn from_char(c: char) -> (r: Grapheme)
        ensures
            r.wf(),
            r.text@ == seq![c],
            r.width == clamp_width(display_width(seq![c])),
    {
        Grapheme::new(char_to_string(c))
    }
}

/// The cluster texts of a sequence of graphemes.
pub open spec fn texts_of(frags: Seq<Grapheme>) -> Seq<Seq<char>> {
    frags.map_values(|g: Grapheme| g.text@)
}

/// The characters a sequence of graphemes spells out.
pub open spec fn line_chars(frags: Seq<Grapheme>) -> Seq<char>
    decreases frags.len(),
{
    if frags.len() == 0 {
        Seq::empty()
    } else {
        line_chars(frags.drop_last()) + frags.last().text@
    }
}

/// The total display width of a sequence of graphemes.
pub open spec fn width_sum(frags: Seq<Grapheme>) -> int
    decreases frags.len(),
{
    if frags.len() == 0 {
        0
    } else {
        width_sum(frags.drop_last()) + frags.last().width
    }
}

/// A well-formed line: within the size cap, every grapheme well-formed.
pub open spec fn line_wf(frags: Seq<Grapheme>) -> bool {
    &&& frags.len() <= LINE_MAX
    &&& forall|i: int| 0 <= i < frags.len() ==> (#[trigger] frags[i]).wf()
}

/// The graphemes built from a sequence of clusters: same texts, clamped
/// table widths.
pub open spec fn fragments_match(frags: Seq<Grapheme>, clusters: Seq<Seq<char>>) -> bool {
    &&& frags.len() == clusters.len()
    &&& forall|i: int|
        0 <= i < frags.len() ==> (#[trigger] frags[i]).text@ == clusters[i]
    &&& forall|i: int|
        0 <= i < frags.len() ==> (#[trigger] frags[i]).width == clamp_width(
            display_width(clusters[i]),
        )
}

/// An index clamped to the grapheme count, as every positional query clamps.
pub open spec fn clamp_index(frags: Seq<Grapheme>, i: int) -> int {
    if i <= frags.len() {
        i
    } else {
        frags.len() as int
    }
}

/// The width of the graphemes strictly before a (clamped) index: the screen
/// column the grapheme at that index starts in.
pub open spec fn width_until_spec(frags: Seq<Grapheme>, i: int) -> int {
    width_sum(frags.take(clamp_index(frags, i)))
}

/// The characters of the graphemes whose column span lies entirely inside
/// the half-open column range: a grapheme that only partially overlaps the
/// range is dropped whole, never split.
pub open spec fn visible_chars(frags: Seq<Grapheme>, left: int, right: int) -> Seq<char>
    decreases frags.len(),
{
    if frags.len() == 0 {
        Seq::empty()
    } else {
        let rest = visible_chars(frags.drop_last(), left, right);
        let start = width_sum(frags.drop_last());
        if left <= start && start + frags.last().width <= right {
            rest + frags.last().text@
        } else {
            rest
        }
    }
}

/// An ordered sequence of graphemes; one physical line of the document.
pub struct Line {
    pub fragments: Vec<Grapheme>,
}

impl View for Line {
    type V = Seq<Grapheme>;

    open spec fn view(&self) -> Seq<Grapheme> {
        self.fragments@
    }
}

impl Default for Line {
    /// The empty line.
    fn default() -> (r: Self)
        ensures
            r@ == Seq::<Grapheme>::empty(),
    {
        Line { fragments: Vec::new() }
    }
}

/// The characters a line spells out are the concatenation of its cluster
/// texts.
proof fn lemma_line_chars_is_flatten(frags: Seq<Grapheme>)
    ensures
        line_chars(frags) == texts_of(frags).flatten(),
    decreases frags.len(),
{
    if frags.len() == 0 {
        assert(texts_of(frags) =~= Seq::<Seq<char>>::empty());
    } else {
        lemma_line_chars_is_flatten(frags.drop_last());
        assert(texts_of(frags).drop_last() =~= texts_of(frags.drop_last()));
        texts_of(frags).lemma_flatten_and_flatten_alt_are_equivalent();
        texts_of(frags.drop_last()).lemma_flatten_and_flatten_alt_are_equivalent();
        assert(texts_of(frags).last() == frags.last().text@);
    }
}

/// Widening a prefix by one grapheme adds exactly that grapheme's width.
pub proof fn lemma_width_sum_take_succ(frags: Seq<Grapheme>, k: int)
    requires
        0 <= k < frags.len(),
    ensures
        width_sum(frags.take(k + 1)) == width_sum(frags.take(k)) + frags[k].width,
{
    assert(frags.take(k + 1).drop_last() =~= frags.take(k));
    assert(frags.take(k + 1).last() == frags[k]);
}

/// Width invariant: the width up to the grapheme count is the sum of all
/// grapheme widths, and the width up to an index never decreases as the
/// index grows.
pub proof fn lemma_width_invariant(frags: Seq<Grapheme>, i: int, j: int)
    requires
        0 <= i <= j,
    ensures
        width_until_spec(frags, frags.len() as int) == width_sum(frags),
        width_until_spec(frags, i) <= width_until_spec(frags, j),
    decreases j,
{
    assert(frags.take(frags.len() as int) =~= frags);
    if i < j && j <= frags.len() {
        lemma_width_invariant(frags, i, j - 1);
        lemma_width_sum_take_succ(frags, j - 1);
    }
    if j > frags.len() {
        if i <= frags.len() {
            lemma_width_invariant(frags, i, frags.len() as int);
        } else {
            lemma_width_invariant(frags, frags.len() as int, frags.len() as int);
        }
    }
}

/// Split/append round-trip: splitting a line at any index within it and
/// appending the tail back restores the original line.
pub proof fn lemma_split_append_round_trip(frags: Seq<Grapheme>, i: int)
    requires
        0 <= i <= frags.len(),
    ensures
        frags.take(i) + frags.skip(i) == frags,
{
    assert(frags.take(i) + frags.skip(i) =~= frags);
}

/// Insert/delete inverse: inserting a grapheme at a position and deleting at
/// that same position restores the original line.
pub proof fn lemma_insert_delete_inverse(frags: Seq<Grapheme>, g: Grapheme, i: int)
    requires
        0 <= i <= frags.len(),
    ensures
        frags.insert(i, g).remove(i) == frags,
{
    assert(frags.insert(i, g).remove(i) =~= frags);
}

impl Line {
    pub open spec fn wf(&self) -> bool {
        line_wf(self@)
    }

    /// Decodes a text segment into its grapheme clusters, each tagged with
    /// its display width. A segment beyond the line cap (impossible for any
    /// text that fits in memory) keeps only the first `LINE_MAX` clusters;
    /// since there are no more clusters than characters, any segment of at
    /// most `LINE_MAX` characters is decoded whole and spells itself back
    /// out.
    pub fn from(text: &str) -> (r: Line)
        ensures
            r.wf(),
            fragments_match(
                r@,
                grapheme_clusters(text@).take(
                    clamp_index_clusters(grapheme_clusters(text@), LINE_MAX as int),
                ),
            ),
            grapheme_clusters(text@).len() <= LINE_MAX ==> fragments_match(
                r@,
                grapheme_clusters(text@),
            ),
            grapheme_clusters(text@).len() <= LINE_MAX ==> line_chars(r@) == text@,
            text@.len() <= LINE_MAX ==> grapheme_clusters(text@).len() <= LINE_MAX,
    {
        let clusters = split_graphemes(text);
        let n = if clusters.len() <= LINE_MAX {
            clusters.len()
        } else {
            LINE_MAX
        };
        let ghost goal = grapheme_clusters(text@).take(n as int);
        let mut fragments: Vec<Grapheme> = Vec::new();
        for i in 0..n
            invariant
                n <= clusters.len(),
                n <= LINE_MAX,
                views_of(clusters@) == grapheme_clusters(text@),
                goal == grapheme_clusters(text@).take(n as int),
                fragments.len() == i,
                line_wf(fragments@),
                fragments_match(fragments@, goal.take(i as int)),
        {
            let g = Grapheme::new(clusters[i].clone());
            fragments.push(g);
            assert(goal.take(i + 1) =~= goal.take(i as int).push(goal[i as int]));
            assert(goal[i as int] == clusters@[i as int]@);
        }
        assert(goal.take(n as int) =~= goal);
        proof {
            if grapheme_clusters(text@).len() <= LINE_MAX {
                assert(grapheme_clusters(text@).take(
                    clamp_index_clusters(grapheme_clusters(text@), LINE_MAX as int),
                ) =~= grapheme_clusters(text@));
                lemma_line_chars_is_flatten(fragments@);
                assert(texts_of(fragments@) =~= views_of(clusters@));
            }
        }
        Line { fragments }
    }

    /// How many graphemes the line holds.
    pub fn grapheme_count(&self) -> (r: usize)
        ensures
            r == self@.len(),
    {
        self.fragments.len()
    }

    /// Inserts a grapheme before index `at`, or appends when `at` equals the
    /// count. An index past the count, or a line already at the cap, is left
    /// alone: a defensive no-op, not an error.
    pub fn insert(&mut self, grapheme: Grapheme, at: usize)
        requires
            old(self).wf(),
            grapheme.wf(),
        ensures
            final(self).wf(),
            at <= old(self)@.len() && old(self)@.len() < LINE_MAX ==> final(self)@ == old(
                self,
            )@.insert(at as int, grapheme),
            at > old(self)@.len() || old(self)@.len() >= LINE_MAX ==> final(self)@ == old(self)@,
    {
        if at <= self.fragments.len() && self.fragments.len() < LINE_MAX {
            self.fragments.insert(at, grapheme);
        }
    }

    /// Inserts the grapheme a typed character becomes.
    pub fn insert_char(&mut self, ch: char, at: usize)
        requires
            old(self).wf(),
        ensures
            final(self).wf(),
            at <= old(self)@.len() && old(self)@.len() < LINE_MAX ==> {
                &&& final(self)@.len() == old(self)@.len() + 1
                &&& final(self)@ == old(self)@.insert(
                    at as int,
                    final(self)@[at as int],
                )
                &&& final(self)@[at as int].text@ == seq![ch]
                &&& final(self)@[at as int].wf()
            },
            at > old(self)@.len() || old(self)@.len() >= LINE_MAX ==> final(self)@ == old(self)@,
    {
        let g = Grapheme::from_char(ch);
        let ghost pre = self@;
        self.insert(g, at);
        proof {
            if at <= pre.len() && pre.len() < LINE_MAX {
                assert(self@[at as int] == g);
            }
        }
    }

    /// Removes the grapheme at `at`; an index at or past the count is a
    /// no-op.
    pub fn delete(&mut self, at: usize)
        requires
            old(self).wf(),
        ensures
            final(self).wf(),
            at < old(self)@.len() ==> final(self)@ == old(self)@.remove(at as int),
            at >= old(self)@.len() ==> final(self)@ == old(self)@,
    {
        if at < self.fragments.len() {
            self.fragments.remove(at);
        }
    }

    /// Truncates the line to the graphemes before `at` and returns the rest
    /// as a new line; splitting at the count yields an empty tail. An index
    /// past the count leaves the line alone and yields an empty tail.
    pub fn split(&mut self, at: usize) -> (tail: Line)
        requires
            old(self).wf(),
        ensures
            final(self).wf(),
            tail.wf(),
            at <= old(self)@.len() ==> final(self)@ == old(self)@.take(at as int) && tail@ == old(
                self,
            )@.skip(at as int),
            at > old(self)@.len() ==> final(self)@ == old(self)@ && tail@ == Seq::<
                Grapheme,
            >::empty(),
    {
        if at <= self.fragments.len() {
            let rest = self.fragments.split_off(at);
            Line { fragments: rest }
        } else {
            Line { fragments: Vec::new() }
        }
    }

    /// Moves all graphemes of `other` onto the end of this line, consuming
    /// it. A join that would pass the line cap (impossible for lines that
    /// fit in memory) is a no-op.
    pub fn append(&mut self, other: Line)
        requires
            old(self).wf(),
            other.wf(),
        ensures
            final(self).wf(),
            old(self)@.len() + other@.len() <= LINE_MAX ==> final(self)@ == old(self)@ + other@,
            old(self)@.len() + other@.len() > LINE_MAX ==> final(self)@ == old(self)@,
    {
        let mut other = other;
        if other.fragments.len() <= LINE_MAX - self.fragments.len() {
            self.fragments.append(&mut other.fragments);
        }
    }

    /// The sum of the widths of the graphemes before `grapheme_index`: the
    /// screen column that position maps to. An index past the count is
    /// clamped to the count, giving the full line width.
    pub fn width_until(&self, grapheme_index: usize) -> (r: usize)
        requires
            self.wf(),
        ensures
            r == width_until_spec(self@, grapheme_index as int),
    {
        let end = if grapheme_index <= self.fragments.len() {
            grapheme_index
        } else {
            self.fragments.len()
        };
        let mut total: usize = 0;
        for i in 0..end
            invariant
                end <= self.fragments.len(),
                self.wf(),
                total == width_sum(self@.take(i as int)),
                total <= 2 * i,
        {
            proof {
                lemma_width_sum_take_succ(self@, i as int);
                assert(self@.take(i as int).len() == i);
            }
            total = total + self.fragments[i].width;
        }
        total
    }

    /// The rendered text of the graphemes that lie entirely inside the
    /// half-open column range `[left, right)`; graphemes that only partially
    /// overlap it are dropped whole.
    pub fn get_visible_graphemes(&self, left: usize, right: usize) -> (r: String)
        requires
            self.wf(),
        ensures
            r@ == visible_chars(self@, left as int, right as int),
    {
        let mut out = String::new();
        let mut pos: usize = 0;
        let n = self.fragments.len();
        for i in 0..n
            invariant
                n == self@.len(),
                self.wf(),
                pos == width_sum(self@.take(i as int)),
                pos <= 2 * i,
                out@ == visible_chars(self@.take(i as int), left as int, right as int),
        {
            proof {
                lemma_width_sum_take_succ(self@, i as int);
                assert(self@.take(i + 1).drop_last() =~= self@.take(i as int));
                assert(self@.take(i + 1).last() == self@[i as int]);
            }
            let g = &self.fragments[i];
            let end = pos + g.width;
            if left <= pos && end <= right {
                out.append(g.text.as_str());
            }
            pos = end;
        }
        proof {
            assert(self@.take(n as int) =~= self@);
        }
        out
    }

    /// The line's text: its grapheme clusters concatenated in order.
    pub fn content(&self) -> (r: String)
        ensures
            r@ == line_chars(self@),
    {
        let mut out = String::new();
        let n = self.fragments.len();
        for i in 0..n
            invariant
                n == self@.len(),
                out@ == line_chars(self@.take(i as int)),
        {
            proof {
                assert(self@.take(i + 1).drop_last() =~= self@.take(i as int));
                assert(self@.take(i + 1).last() == self@[i as int]);
            }
            out.append(self.fragments[i].text.as_str());
        }
        proof {
            assert(self@.take(n as int) =~= self@);
        }
        out
    }
}

/// An index clamped to a cluster count.
pub open spec fn clamp_index_clusters(clusters: Seq<Seq<char>>, i: int) -> int {
    if i <= clusters.len() {
        i
    } else {
        clusters.len() as int
    }
}

} // verus!
