//! Depth-first walk over the tags of a group tree.
use vstd::prelude::*;
use super::{flatten, flatten_seq, Tag, TagGroup};

verus! {

/// One level of a depth-first walk: a list of groups and the position of the next one.
#[derive(Copy, Clone)]
pub struct TagFrame<'a> {
    pub items: &'a [TagGroup],
    pub next: usize,
}

/// The number of nodes of a group tree.
pub open spec fn group_size(g: TagGroup) -> nat
    decreases g,
{
    match g {
        TagGroup::Tag(_) => 1,
        TagGroup::Group(v) => 1 + groups_size(v@),
    }
}

/// The number of nodes of a sequence of group trees.
pub open spec fn groups_size(s: Seq<TagGroup>) -> nat
    decreases s,
{
    if s.len() == 0 {
        0
    } else {
        group_size(s[0]) + groups_size(s.subrange(1, s.len() as int))
    }
}

/// The tags that a stack of frames has still to produce, top of the stack (last) first.
pub open spec fn frames_tags<'a>(fs: Seq<TagFrame<'a>>) -> Seq<Tag>
    decreases fs.len(),
{
    if fs.len() == 0 {
        Seq::empty()
    } else {
        let top = fs[fs.len() - 1];
        flatten_seq(top.items@.subrange(top.next as int, top.items@.len() as int)) + frames_tags(
            fs.subrange(0, fs.len() - 1),
        )
    }
}

/// The number of nodes that a stack of frames has still to visit.
pub open spec fn frames_size<'a>(fs: Seq<TagFrame<'a>>) -> nat
    decreases fs.len(),
{
    if fs.len() == 0 {
        0
    } else {
        let top = fs[fs.len() - 1];
        groups_size(top.items@.subrange(top.next as int, top.items@.len() as int)) + frames_size(
            fs.subrange(0, fs.len() - 1),
        )
    }
}

/// Pushing a frame puts its tags first.
proof fn lemma_frames_push<'a>(fs: Seq<TagFrame<'a>>, f: TagFrame<'a>)
    ensures
        frames_tags(fs.push(f)) == flatten_seq(f.items@.subrange(f.next as int, f.items@.len() as int))
            + frames_tags(fs),
        frames_size(fs.push(f)) == groups_size(f.items@.subrange(f.next as int, f.items@.len() as int))
            + frames_size(fs),
{
    assert(fs.push(f).subrange(0, fs.len() as int) =~= fs);
}

/// A depth-first walk over the tags of a group, with an explicit stack of frames in place of
/// recursion, so that deep nesting does not grow the call stack.
pub struct TagGroupIterator<'a> {
    single: Option<&'a Tag>,
    frames: Vec<TagFrame<'a>>,
}

impl<'a> TagGroupIterator<'a> {
    /// Every frame's position lies within its list.
    pub closed spec fn wf(&self) -> bool {
        forall|i: int|
            0 <= i < self.frames@.len() ==> #[trigger] self.frames@[i].next
                <= self.frames@[i].items@.len()
    }

    /// The tags still to come, in order.
    pub closed spec fn remaining(&self) -> Seq<Tag> {
        let head = match self.single {
            Some(t) => seq![*t],
            None => Seq::empty(),
        };
        head + frames_tags(self.frames@)
    }

    /// A walk over a single tag.
    pub fn new_over_tag(tag: &'a Tag) -> (r: Self)
        ensures
            r.wf(),
            r.remaining() == seq![*tag],
    {
        let r = TagGroupIterator { single: Some(tag), frames: Vec::new() };
        assert(r.remaining() =~= seq![*tag]);
        r
    }

    /// A walk over a list of groups, one after the other.
    pub fn new_over_group(items: &'a [TagGroup]) -> (r: Self)
        ensures
            r.wf(),
            r.remaining() == flatten_seq(items@),
    {
        let mut frames: Vec<TagFrame<'a>> = Vec::new();
        frames.push(TagFrame { items, next: 0 });
        let r = TagGroupIterator { single: None, frames };
        proof {
            lemma_frames_push(Seq::<TagFrame<'a>>::empty(), TagFrame { items, next: 0 });
            assert(frames@ =~= Seq::<TagFrame<'a>>::empty().push(TagFrame { items, next: 0 }));
            assert(items@.subrange(0, items@.len() as int) =~= items@);
        }
        assert(r.remaining() =~= flatten_seq(items@));
        r
    }

    /// The next tag, or `None` once every tag has been produced.
    pub fn next(&mut self) -> (r: Option<&'a Tag>)
        requires
            old(self).wf(),
        ensures
            final(self).wf(),
            match r {
                None => old(self).remaining().len() == 0 && final(self).remaining().len() == 0,
                Some(t) => old(self).remaining() == seq![*t] + final(self).remaining(),
            },
    {
        if let Some(t) = self.single {
            self.single = None;
            assert(old(self).remaining() =~= seq![*t] + self.remaining());
            return Some(t);
        }
        assert(self.remaining() =~= frames_tags(self.frames@));
        loop
            invariant
                self.wf(),
                self.single is None,
                self.remaining() == old(self).remaining(),
            decreases 2 * frames_size(self.frames@) + self.frames@.len(),
        {
            let n = self.frames.len();
            if n == 0 {
                return None;
            }
            let f = self.frames[n - 1];
            let ghost fs = self.frames@;
            let ghost rest = fs.subrange(0, n - 1);
            proof {
                assert(fs =~= rest.push(f));
                lemma_frames_push(rest, f);
            }
            if f.next >= f.items.len() {
                self.frames.pop();
                proof {
                    assert(f.items@.subrange(f.next as int, f.items@.len() as int) =~= Seq::<
                        TagGroup,
                    >::empty());
                    assert(self.frames@ =~= rest);
                    assert(flatten_seq(Seq::<TagGroup>::empty()) == Seq::<Tag>::empty());
                    assert(groups_size(Seq::<TagGroup>::empty()) == 0);
                    assert(self.remaining() =~= frames_tags(fs));
                }
            } else {
                let g = &f.items[f.next];
                let f1 = TagFrame { items: f.items, next: f.next + 1 };
                self.frames.set(n - 1, f1);
                let ghost s = f.items@.subrange(f.next as int, f.items@.len() as int);
                let ghost s1 = f.items@.subrange(f.next + 1, f.items@.len() as int);
                proof {
                    assert(s[0] == *g);
                    assert(s.subrange(1, s.len() as int) =~= s1);
                    assert(self.frames@ =~= rest.push(f1));
                    lemma_frames_push(rest, f1);
                    assert(flatten_seq(s) == flatten(*g) + flatten_seq(s1));
                    assert(groups_size(s) == group_size(*g) + groups_size(s1));
                }
                match g {
                    TagGroup::Tag(t) => {
                        proof {
                            assert(old(self).remaining() =~= seq![*t] + self.remaining());
                        }
                        return Some(t);
                    },
                    TagGroup::Group(v) => {
                        let ghost fs1 = self.frames@;
                        let child = TagFrame { items: v.as_slice(), next: 0 };
                        self.frames.push(child);
                        proof {
                            assert(self.frames@ =~= fs1.push(child));
                            lemma_frames_push(fs1, child);
                            assert(v@.subrange(0, v@.len() as int) =~= v@);
                            assert(group_size(*g) == 1 + groups_size(v@));
                            assert(flatten(*g) == flatten_seq(v@));
                            assert(self.remaining() =~= frames_tags(fs));
                        }
                    },
                }
            }
        }
    }
}

impl TagGroup {
    /// A walk over the tags of this group, depth first and in order.
    pub fn tags(&self) -> (r: TagGroupIterator<'_>)
        ensures
            r.wf(),
            r.remaining() == flatten(*self),
    {
        match self {
            TagGroup::Tag(tag) => TagGroupIterator::new_over_tag(tag),
            TagGroup::Group(items) => TagGroupIterator::new_over_group(items.as_slice()),
        }
    }

    /// The tags of this group, depth first and in order.
    pub fn tag_list(&self) -> (r: Vec<Tag>)
        ensures
            r@ == flatten(*self),
    {
        let mut it = self.tags();
        let mut out: Vec<Tag> = Vec::new();
        loop
            invariant
                it.wf(),
                out@ + it.remaining() == flatten(*self),
            decreases it.remaining().len(),
        {
            match it.next() {
                Some(t) => {
                    out.push(*t);
                    assert(out@ + it.remaining() =~= flatten(*self));
                },
                None => {
                    assert(out@ =~= flatten(*self));
                    return out;
                },
            }
        }
    }
}

} // verus!
