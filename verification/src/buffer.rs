//! The document buffer: an ordered sequence of grapheme lines, a dirty flag,
//! and the file association. All structural edits clamp out-of-range
//! coordinates to no-ops rather than fail.

use vstd::prelude::*;

use crate::fileinfo::FileInfo;
use crate::line::clamp_index_clusters;
use crate::line::fragments_match;
use crate::line::grapheme_clusters;
use crate::line::line_chars;
use crate::line::Grapheme;
use crate::line::Line;
use crate::line::LINE_MAX;
use crate::viewport::Location;

verus! {

/// A segment with one trailing carriage return shed, as a line break of the
/// form `\r\n` leaves no carriage return in the line before it.
pub open spec fn strip_cr(s: Seq<char>) -> Seq<char> {
    if s.len() > 0 && s.last() == '\r' {
        s.drop_last()
    } else {
        s
    }
}

/// The segments of `s` from position `i` on, given the partial segment
/// `cur` read so far and the segments `acc` already complete: text splits
/// at every line feed, and a trailing terminator yields no phantom final
/// segment.
pub open spec fn split_lines_from(
    s: Seq<char>,
    i: int,
    cur: Seq<char>,
    acc: Seq<Seq<char>>,
) -> Seq<Seq<char>>
    decreases s.len() - i,
{
    if i < 0 || i >= s.len() {
        if cur.len() > 0 {
            acc.push(cur)
        } else {
            acc
        }
    } else if s[i] == '\n' {
        split_lines_from(s, i + 1, Seq::empty(), acc.push(strip_cr(cur)))
    } else {
        split_lines_from(s, i + 1, cur.push(s[i]), acc)
    }
}

/// The line segments of a text: split at each line feed, each segment shedding
/// one carriage return before the break; a trailing terminator produces no
/// phantom empty final segment.
pub open spec fn split_lines(s: Seq<char>) -> Seq<Seq<char>> {
    split_lines_from(s, 0, Seq::empty(), Seq::empty())
}

/// What `Line::from` makes of a text segment: the segment's grapheme
/// clusters in order, spelling the segment back out. A segment of at most
/// `LINE_MAX` characters (so any segment of a text that fits in memory) is
/// always held whole.
pub open spec fn line_from_segment(l: Line, seg: Seq<char>) -> bool {
    &&& l.wf()
    &&& fragments_match(
        l@,
        grapheme_clusters(seg).take(clamp_index_clusters(grapheme_clusters(seg), LINE_MAX as int)),
    )
    &&& grapheme_clusters(seg).len() <= LINE_MAX ==> fragments_match(l@, grapheme_clusters(seg))
    &&& grapheme_clusters(seg).len() <= LINE_MAX ==> line_chars(l@) == seg
    &&& seg.len() <= LINE_MAX ==> fragments_match(l@, grapheme_clusters(seg)) && line_chars(l@)
        == seg
}

/// A line holding exactly the one typed character.
pub open spec fn single_char_line(frags: Seq<Grapheme>, ch: char) -> bool {
    &&& frags.len() == 1
    &&& frags[0].text@ == seq![ch]
    &&& frags[0].wf()
}

/// How a line changes when a character is inserted at grapheme position
/// `gi`: one new grapheme holding the character, or no change when the
/// position is past the end (or the line is at its cap).
pub open spec fn inserted_char_at(
    oldl: Seq<Grapheme>,
    newl: Seq<Grapheme>,
    ch: char,
    gi: int,
) -> bool {
    if gi <= oldl.len() && oldl.len() < LINE_MAX {
        &&& newl.len() == oldl.len() + 1
        &&& newl == oldl.insert(gi, newl[gi])
        &&& newl[gi].text@ == seq![ch]
        &&& newl[gi].wf()
    } else {
        newl == oldl
    }
}

/// How a line splits at grapheme position `gi`: head and tail, with an
/// out-of-range position leaving the line whole and the tail empty.
pub open spec fn split_pair(
    oldl: Seq<Grapheme>,
    gi: int,
    head: Seq<Grapheme>,
    tail: Seq<Grapheme>,
) -> bool {
    if gi <= oldl.len() {
        head == oldl.take(gi) && tail == oldl.skip(gi)
    } else {
        head == oldl && tail.len() == 0
    }
}

/// The text a sequence of lines serializes to: contents joined with a line
/// feed, no trailing terminator.
pub open spec fn join_chars(lines: Seq<Line>) -> Seq<char>
    decreases lines.len(),
{
    if lines.len() == 0 {
        Seq::empty()
    } else if lines.len() == 1 {
        line_chars(lines[0]@)
    } else {
        join_chars(lines.drop_last()) + seq!['\n'] + line_chars(lines.last()@)
    }
}

/// How `insert_char` changes a buffer: one past the last line appends a new
/// single-grapheme line, a valid line index inserts into that line, and
/// anything else (a line index further out, a grapheme position past the
/// line's end, a line at its cap) leaves the buffer unchanged, its dirty
/// flag included: the flag tracks real mutations only.
pub open spec fn insert_char_post(pre: Buffer, post: Buffer, ch: char, at: Location) -> bool {
    &&& at.line_index > pre.lines@.len() ==> post == pre
    &&& at.line_index == pre.lines@.len() ==> {
        &&& post.lines@ == pre.lines@.push(post.lines@.last())
        &&& single_char_line(post.lines@.last()@, ch)
        &&& post.dirty
        &&& post.file_info == pre.file_info
    }
    &&& at.line_index < pre.lines@.len() ==> {
        let li = at.line_index as int;
        let gi = at.grapheme_index as int;
        let oldl = pre.lines@[li]@;
        if gi <= oldl.len() && oldl.len() < LINE_MAX {
            &&& post.lines@ == pre.lines@.update(li, post.lines@[li])
            &&& inserted_char_at(oldl, post.lines@[li]@, ch, gi)
            &&& post.dirty
            &&& post.file_info == pre.file_info
        } else {
            post == pre
        }
    }
}

/// How `delete` changes a buffer: inside a line the grapheme at the
/// position is removed; at or past a line's end with a next line, the next
/// line joins on. Everything else — a line index out of range, a position
/// at the very end of the document, or a join that would pass the line cap
/// — is a complete no-op, the dirty flag included: the flag tracks real
/// mutations only.
pub open spec fn delete_post(pre: Buffer, post: Buffer, at: Location) -> bool {
    &&& at.line_index >= pre.lines@.len() ==> post == pre
    &&& at.line_index < pre.lines@.len() ==> {
        let li = at.line_index as int;
        let gi = at.grapheme_index as int;
        let oldl = pre.lines@[li]@;
        if gi < oldl.len() {
            &&& post.lines@ == pre.lines@.update(li, post.lines@[li])
            &&& post.lines@[li]@ == oldl.remove(gi)
            &&& post.dirty
            &&& post.file_info == pre.file_info
        } else if li + 1 < pre.lines@.len() && oldl.len() + pre.lines@[li + 1]@.len()
            <= LINE_MAX {
            &&& post.lines@ == pre.lines@.update(li, post.lines@[li]).remove(li + 1)
            &&& post.lines@[li]@ == oldl + pre.lines@[li + 1]@
            &&& post.dirty
            &&& post.file_info == pre.file_info
        } else {
            post == pre
        }
    }
}

/// How `insert_newline` changes a buffer: one past the last line appends an
/// empty line; a valid line index splits that line, the tail becoming the
/// next line; beyond that, nothing changes.
pub open spec fn insert_newline_post(pre: Buffer, post: Buffer, at: Location) -> bool {
    &&& at.line_index > pre.lines@.len() ==> post == pre
    &&& at.line_index == pre.lines@.len() ==> {
        &&& post.lines@ == pre.lines@.push(post.lines@.last())
        &&& post.lines@.last()@.len() == 0
        &&& post.dirty
        &&& post.file_info == pre.file_info
    }
    &&& at.line_index < pre.lines@.len() ==> {
        let li = at.line_index as int;
        &&& post.lines@ == pre.lines@.update(li, post.lines@[li]).insert(
            li + 1,
            post.lines@[li + 1],
        )
        &&& split_pair(
            pre.lines@[li]@,
            at.grapheme_index as int,
            post.lines@[li]@,
            post.lines@[li + 1]@,
        )
        &&& post.dirty
        &&& post.file_info == pre.file_info
    }
}

/// Insert/delete inverse at the buffer level: inserting a grapheme into a
/// line at a position and then deleting at that same position restores the
/// original lines (below the line-size cap, where the insertion happens).
pub proof fn lemma_buffer_insert_delete_inverse(
    docs: Seq<Seq<Grapheme>>,
    li: int,
    gi: int,
    g: Grapheme,
)
    requires
        0 <= li < docs.len(),
        0 <= gi <= docs[li].len(),
        docs[li].len() < LINE_MAX,
    ensures
        ({
            let inserted = docs.update(li, docs[li].insert(gi, g));
            inserted.update(li, inserted[li].remove(gi)) == docs
        }),
{
    let inserted = docs.update(li, docs[li].insert(gi, g));
    assert(inserted[li].remove(gi) =~= docs[li]);
    assert(inserted.update(li, inserted[li].remove(gi)) =~~= docs);
}

/// The rendered contents of a sequence of lines.
pub open spec fn contents_of(lines: Seq<Line>) -> Seq<Seq<char>> {
    lines.map_values(|l: Line| line_chars(l@))
}

/// Text segments joined with a line feed, no trailing terminator: the
/// character level of `join_chars`.
spec fn join_segments(docs: Seq<Seq<char>>) -> Seq<char>
    decreases docs.len(),
{
    if docs.len() == 0 {
        Seq::empty()
    } else if docs.len() == 1 {
        docs[0]
    } else {
        join_segments(docs.drop_last()) + seq!['\n'] + docs.last()
    }
}

/// Serializing lines is joining their contents.
proof fn lemma_join_chars_is_join_segments(lines: Seq<Line>)
    ensures
        join_chars(lines) == join_segments(contents_of(lines)),
    decreases lines.len(),
{
    if lines.len() > 1 {
        lemma_join_chars_is_join_segments(lines.drop_last());
        assert(contents_of(lines.drop_last()) =~= contents_of(lines).drop_last());
    }
}

/// The back-recursive join, read from the front.
proof fn lemma_join_segments_front(docs: Seq<Seq<char>>)
    requires
        docs.len() >= 2,
    ensures
        join_segments(docs) == docs.first() + seq!['\n'] + join_segments(docs.drop_first()),
    decreases docs.len(),
{
    if docs.len() == 2 {
        assert(docs.drop_last()[0] == docs.first());
        assert(join_segments(docs.drop_last()) == docs.first());
        assert(join_segments(docs.drop_first()) == docs.last());
    } else {
        lemma_join_segments_front(docs.drop_last());
        assert(docs.drop_last().first() == docs.first());
        assert(docs.drop_last().drop_first() =~= docs.drop_first().drop_last());
        assert(docs.drop_first().last() == docs.last());
        assert((docs.first() + seq!['\n'] + join_segments(docs.drop_first().drop_last()))
            + seq!['\n'] + docs.last() =~= docs.first() + seq!['\n'] + (join_segments(
            docs.drop_first().drop_last(),
        ) + seq!['\n'] + docs.last()));
    }
}

/// Scanning over a stretch that holds no line feed just accumulates it
/// into the current segment.
proof fn lemma_split_absorbs_segment(
    s: Seq<char>,
    i: int,
    cur: Seq<char>,
    acc: Seq<Seq<char>>,
    seg: Seq<char>,
)
    requires
        0 <= i,
        i + seg.len() <= s.len(),
        s.subrange(i, i + seg.len()) == seg,
        forall|j: int| 0 <= j < seg.len() ==> seg[j] != '\n',
    ensures
        split_lines_from(s, i, cur, acc) == split_lines_from(s, i + seg.len(), cur + seg, acc),
    decreases seg.len(),
{
    if seg.len() == 0 {
        assert(cur + seg =~= cur);
    } else {
        assert(s[i] == seg[0]);
        let rest = seg.subrange(1, seg.len() as int);
        assert(s.subrange(i + 1, i + 1 + rest.len()) =~= rest);
        lemma_split_absorbs_segment(s, i + 1, cur.push(s[i]), acc, rest);
        assert(cur.push(seg[0]) + rest =~= cur + seg);
    }
}

/// Scanning text that is segments joined by line feeds yields exactly
/// those segments, appended to what was already complete — provided no
/// segment holds a line feed, none but the last ends in a carriage return,
/// and the last is not empty.
proof fn lemma_split_of_joined(s: Seq<char>, i: int, acc: Seq<Seq<char>>, docs: Seq<Seq<char>>)
    requires
        0 <= i <= s.len(),
        s.subrange(i, s.len() as int) == join_segments(docs),
        forall|k: int, j: int|
            0 <= k < docs.len() && 0 <= j < docs[k].len() ==> (#[trigger] docs[k][j]) != '\n',
        forall|k: int|
            0 <= k < docs.len() - 1 ==> ((#[trigger] docs[k]).len() == 0 || docs[k].last()
                != '\r'),
        docs.len() > 0 ==> docs.last().len() > 0,
    ensures
        split_lines_from(s, i, Seq::empty(), acc) == acc + docs,
    decreases docs.len(),
{
    let tail = s.subrange(i, s.len() as int);
    if docs.len() == 0 {
        assert(tail.len() == 0);
        assert(i == s.len());
        assert(acc + docs =~= acc);
    } else if docs.len() == 1 {
        let d = docs[0];
        assert(tail == d);
        assert(i + d.len() == s.len());
        assert(s.subrange(i, i + d.len()) == d);
        lemma_split_absorbs_segment(s, i, Seq::empty(), acc, d);
        assert(Seq::empty() + d =~= d);
        assert(split_lines_from(s, s.len() as int, d, acc) == acc.push(d));
        assert(acc.push(d) =~= acc + docs);
    } else {
        let d = docs.first();
        let rest = docs.drop_first();
        lemma_join_segments_front(docs);
        assert(tail == d + seq!['\n'] + join_segments(rest));
        assert(tail.len() == d.len() + 1 + join_segments(rest).len());
        assert(i + d.len() + 1 <= s.len());
        assert(s.subrange(i, i + d.len()) =~= d) by {
            assert(forall|j: int|
                0 <= j < d.len() ==> s.subrange(i, i + d.len())[j] == #[trigger] tail[j]);
        }
        lemma_split_absorbs_segment(s, i, Seq::empty(), acc, d);
        assert(Seq::empty() + d =~= d);
        assert(s[i + d.len()] == tail[d.len() as int]);
        assert(s[i + d.len()] == '\n');
        assert(split_lines_from(s, i + d.len(), d, acc) == split_lines_from(
            s,
            i + d.len() + 1,
            Seq::empty(),
            acc.push(strip_cr(d)),
        ));
        assert(strip_cr(d) == d);
        assert forall|j: int| 0 <= j < join_segments(rest).len() implies s.subrange(
            i + d.len() + 1,
            s.len() as int,
        )[j] == join_segments(rest)[j] by {
            assert(s.subrange(i + d.len() + 1, s.len() as int)[j] == tail[d.len() + 1 + j]);
            assert(tail[d.len() + 1 + j] == join_segments(rest)[j]);
        }
        assert(s.subrange(i + d.len() + 1, s.len() as int) =~= join_segments(rest));
        assert(rest.last() == docs.last());
        lemma_split_of_joined(s, i + d.len() + 1, acc.push(d), rest);
        assert(acc.push(d) + rest =~= acc + docs);
    }
}

/// Save/load round trip: splitting the text a sequence of lines serializes
/// to restores exactly those lines' contents. It holds of every sequence of
/// lines whose contents hold no line feed (a line with one cannot arise
/// from loading or editing), where no line but the last ends in a carriage
/// return (such an ending would read back as a `\r\n` break), and whose
/// last line is not empty (a trailing empty line serializes to a trailing
/// terminator, which loading drops as a phantom line).
pub proof fn lemma_save_load_round_trip(lines: Seq<Line>)
    requires
        forall|k: int, j: int|
            0 <= k < lines.len() && 0 <= j < line_chars(lines[k]@).len() ==> (#[trigger] line_chars(
                lines[k]@,
            )[j]) != '\n',
        forall|k: int|
            0 <= k < lines.len() - 1 ==> (line_chars((#[trigger] lines[k])@).len() == 0
                || line_chars(lines[k]@).last() != '\r'),
        lines.len() > 0 ==> line_chars(lines.last()@).len() > 0,
    ensures
        split_lines(join_chars(lines)) == contents_of(lines),
{
    lemma_join_chars_is_join_segments(lines);
    let s = join_chars(lines);
    let docs = contents_of(lines);
    assert(s.subrange(0, s.len() as int) =~= s);
    assert(forall|k: int, j: int|
        0 <= k < docs.len() && 0 <= j < docs[k].len() ==> (#[trigger] docs[k][j]) != '\n');
    lemma_split_of_joined(s, 0, Seq::empty(), docs);
    assert(Seq::<Seq<char>>::empty() + docs =~= docs);
}

/// An ordered sequence of lines with edit metadata. An empty buffer (no
/// lines) is a valid state distinct from one holding a single empty line.
pub struct Buffer {
    pub lines: Vec<Line>,
    pub file_info: FileInfo,
    pub dirty: bool,
}

impl Default for Buffer {
    /// The empty, untitled, clean buffer.
    fn default() -> (r: Self)
        ensures
            r.wf(),
            r.lines@.len() == 0,
            !r.dirty,
            r.file_info.path is None,
    {
        Buffer { lines: Vec::new(), file_info: FileInfo::default(), dirty: false }
    }
}

/// Buffer join symmetry: inserting a line break inside a line (which leaves
/// its head and tail as neighbouring lines) and then deleting at the break
/// point joins the two halves back and restores the original lines.
pub proof fn lemma_join_undoes_split(docs: Seq<Seq<Grapheme>>, li: int, k: int)
    requires
        0 <= li < docs.len(),
        0 <= k <= docs[li].len(),
    ensures
        ({
            let after_split = docs.update(li, docs[li].take(k)).insert(li + 1, docs[li].skip(k));
            let joined = after_split[li] + after_split[li + 1];
            after_split.update(li, joined).remove(li + 1) == docs
        }),
{
    let after_split = docs.update(li, docs[li].take(k)).insert(li + 1, docs[li].skip(k));
    let joined = after_split[li] + after_split[li + 1];
    assert(joined =~= docs[li]);
    assert(after_split.update(li, joined).remove(li + 1) =~~= docs);
}

impl Buffer {
    /// Every line of a buffer is well-formed.
    pub open spec fn wf(&self) -> bool {
        forall|i: int| 0 <= i < self.lines@.len() ==> (#[trigger] self.lines@[i]).wf()
    }

    /// Builds a buffer from already-decoded text, splitting it into line
    /// segments and decoding each into a grapheme line. Reading the text in
    /// is the caller's affair; a buffer loads only from text that decoded
    /// cleanly.
    pub fn load(contents: &str, file_name: &str) -> (r: Buffer)
        ensures
            r.wf(),
            !r.dirty,
            r.file_info.path is Some && r.file_info.path->0@ == file_name@,
            r.lines@.len() == split_lines(contents@).len(),
            forall|k: int|
                0 <= k < r.lines@.len() ==> line_from_segment(
                    #[trigger] r.lines@[k],
                    split_lines(contents@)[k],
                ),
            contents@.len() <= LINE_MAX ==> forall|k: int|
                0 <= k < r.lines@.len() ==> line_chars((#[trigger] r.lines@[k])@) == split_lines(
                    contents@,
                )[k],
    {
        let s = contents;
        let n = s.unicode_len();
        let mut lines: Vec<Line> = Vec::new();
        let ghost mut segs: Seq<Seq<char>> = Seq::empty();
        let mut seg_start: usize = 0;
        proof {
            assert(s@.subrange(0, 0) =~= Seq::<char>::empty());
        }
        for i in 0..n
            invariant
                n == s@.len(),
                seg_start <= i,
                lines@.len() == segs.len(),
                forall|k: int|
                    0 <= k < lines@.len() ==> line_from_segment(#[trigger] lines@[k], segs[k]),
                forall|k: int| 0 <= k < segs.len() ==> (#[trigger] segs[k]).len() <= n,
                split_lines(s@) == split_lines_from(
                    s@,
                    i as int,
                    s@.subrange(seg_start as int, i as int),
                    segs,
                ),
        {
            let c = s.get_char(i);
            if c == '\n' {
                let mut end = i;
                if end > seg_start && s.get_char(end - 1) == '\r' {
                    end = end - 1;
                }
                let seg = s.substring_char(seg_start, end);
                proof {
                    assert(strip_cr(s@.subrange(seg_start as int, i as int)) =~= s@.subrange(
                        seg_start as int,
                        end as int,
                    ));
                }
                let l = Line::from(seg);
                lines.push(l);
                proof {
                    segs = segs.push(s@.subrange(seg_start as int, end as int));
                    assert(s@.subrange(i + 1, i + 1) =~= Seq::<char>::empty());
                }
                seg_start = i + 1;
            } else {
                proof {
                    assert(s@.subrange(seg_start as int, i as int).push(s@[i as int]) =~= s@
                        .subrange(seg_start as int, i + 1));
                }
            }
        }
        if seg_start < n {
            let seg = s.substring_char(seg_start, n);
            let l = Line::from(seg);
            lines.push(l);
            proof {
                segs = segs.push(s@.subrange(seg_start as int, n as int));
            }
        }
        Buffer { lines, file_info: FileInfo::from(file_name), dirty: false }
    }

    /// Inserts a character at a location: one past the last line appends a
    /// new single-grapheme line, a valid line index inserts into that line.
    /// Anything out of range is a no-op that leaves the dirty flag alone:
    /// the flag marks unsaved mutations, and a no-op mutates nothing.
    pub fn insert_char(&mut self, ch: char, at: Location)
        requires
            old(self).wf(),
        ensures
            final(self).wf(),
            insert_char_post(*old(self), *final(self), ch, at),
    {
        let li = at.line_index;
        if li > self.lines.len() {
            return ;
        }
        if li == self.lines.len() {
            let g = Grapheme::from_char(ch);
            let mut fragments: Vec<Grapheme> = Vec::new();
            fragments.push(g);
            self.lines.push(Line { fragments });
            self.dirty = true;
        } else {
            let count = self.lines[li].grapheme_count();
            if at.grapheme_index <= count && count < LINE_MAX {
                let mut cur = self.lines.remove(li);
                cur.insert_char(ch, at.grapheme_index);
                self.lines.insert(li, cur);
                self.dirty = true;
                proof {
                    assert(self.lines@ =~= old(self).lines@.update(
                        li as int,
                        self.lines@[li as int],
                    ));
                }
            }
        }
    }

    /// Deletes at a location: inside a line, removes the grapheme at the
    /// position; at or past the end of a line with a next line, joins the
    /// next line on. A line index out of range, a position at the very end
    /// of the document, or a join past the line cap is a no-op that leaves
    /// the dirty flag alone: the flag marks unsaved mutations, and a no-op
    /// mutates nothing.
    pub fn delete(&mut self, at: Location)
        requires
            old(self).wf(),
        ensures
            final(self).wf(),
            delete_post(*old(self), *final(self), at),
    {
        let li = at.line_index;
        if li >= self.lines.len() {
            return ;
        }
        let count = self.lines[li].grapheme_count();
        if at.grapheme_index < count {
            let mut cur = self.lines.remove(li);
            cur.delete(at.grapheme_index);
            self.lines.insert(li, cur);
            self.dirty = true;
            proof {
                assert(self.lines@ =~= old(self).lines@.update(li as int, self.lines@[li as int]));
            }
        } else if li + 1 < self.lines.len() {
            let next_count = self.lines[li + 1].grapheme_count();
            if count <= LINE_MAX - next_count {
                let next = self.lines.remove(li + 1);
                let mut cur = self.lines.remove(li);
                cur.append(next);
                self.lines.insert(li, cur);
                self.dirty = true;
                proof {
                    assert(self.lines@ =~= old(self).lines@.update(
                        li as int,
                        self.lines@[li as int],
                    ).remove(li + 1));
                }
            }
        }
    }

    /// Inserts a line break at a location: one past the last line appends an
    /// empty line; a valid line index splits that line at the grapheme
    /// position, the tail becoming the next line; beyond that, a no-op.
    pub fn insert_newline(&mut self, at: Location)
        requires
            old(self).wf(),
        ensures
            final(self).wf(),
            insert_newline_post(*old(self), *final(self), at),
    {
        let li = at.line_index;
        if li == self.lines.len() {
            self.lines.push(Line::default());
            self.dirty = true;
        } else if li < self.lines.len() {
            let mut cur = self.lines.remove(li);
            let tail = cur.split(at.grapheme_index);
            self.lines.insert(li, cur);
            self.lines.insert(li + 1, tail);
            self.dirty = true;
            proof {
                assert(self.lines@ =~= old(self).lines@.update(
                    li as int,
                    self.lines@[li as int],
                ).insert(li + 1, self.lines@[li + 1]));
            }
        }
    }

    /// The text the buffer persists as: line contents joined with a line
    /// feed, with no trailing terminator forced.
    pub fn serialize(&self) -> (r: String)
        ensures
            r@ == join_chars(self.lines@),
    {
        let mut out = String::new();
        let n = self.lines.len();
        for i in 0..n
            invariant
                n == self.lines@.len(),
                out@ == join_chars(self.lines@.take(i as int)),
        {
            proof {
                reveal_strlit("\n");
                assert(self.lines@.take(i + 1).drop_last() =~= self.lines@.take(i as int));
                assert(self.lines@.take(i + 1).last() == self.lines@[i as int]);
            }
            if i > 0 {
                out.append("\n");
            }
            let c = self.lines[i].content();
            out.append(c.as_str());
        }
        proof {
            assert(self.lines@.take(n as int) =~= self.lines@);
        }
        out
    }

    /// Records a confirmed persist: the dirty flag clears, nothing else
    /// changes. To be called only once the external write has succeeded.
    pub fn mark_saved(&mut self)
        ensures
            final(self).lines == old(self).lines,
            final(self).file_info == old(self).file_info,
            !final(self).dirty,
    {
        self.dirty = false;
    }

    /// Whether the buffer holds no lines at all.
    pub fn is_empty(&self) -> (r: bool)
        ensures
            r == (self.lines@.len() == 0),
    {
        self.lines.is_empty()
    }

    /// How many lines the buffer holds.
    pub fn height(&self) -> (r: usize)
        ensures
            r == self.lines@.len(),
    {
        self.lines.len()
    }
}

} // verus!
