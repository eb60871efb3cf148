//! A growable per-frame staging cache for one GPU buffer.
//!
//! The cache owns the staging list, the logical length and the capacity of
//! the buffer; the device buffer itself lives with the host. Each call to
//! [`BufferCache::update`] settles the capacity bookkeeping and returns an
//! [`UploadAction`] telling the host exactly what to do with the device
//! buffer: nothing, an in-place write of the staged contents, or a fresh
//! allocation of the stated capacity followed by that write.

use vstd::prelude::*;

verus! {

/// The half-open range of logical indices that one `append` wrote.
#[derive(Clone, Copy, PartialEq, Eq, Structural, Debug)]
pub struct Span {
    pub start: usize,
    pub end: usize,
}

/// What the host must do with the device buffer after an `update`.
#[derive(Clone, Copy, PartialEq, Eq, Structural, Debug)]
pub enum UploadAction {
    /// Nothing is staged; skip the upload and leave the buffer alone.
    Skip,
    /// The staged contents fit: write them into the existing buffer in place.
    Write,
    /// The staged contents outgrew the buffer: allocate a new one holding
    /// `new_capacity` elements, then write the staged contents into it.
    Grow { new_capacity: usize },
}

/// The capacity after an update of a cache with `len` staged elements and
/// capacity `cap`: unchanged while the contents fit, otherwise doubled or
/// grown to the exact need, whichever is larger.
pub open spec fn grown_capacity(len: int, cap: int) -> int {
    if len > cap {
        if 2 * cap > len {
            2 * cap
        } else {
            len
        }
    } else {
        cap
    }
}

/// Which action an update of a cache with `len` staged elements and capacity
/// `cap` hands to the host.
pub open spec fn update_decision(len: int, cap: int) -> UploadAction {
    if len == 0 {
        UploadAction::Skip
    } else if len > cap {
        UploadAction::Grow { new_capacity: grown_capacity(len, cap) as usize }
    } else {
        UploadAction::Write
    }
}

/// The contents that an action makes the host write to the device buffer:
/// none for a skipped upload, the whole staged sequence otherwise.
pub open spec fn upload_payload<T>(contents: Seq<T>, action: UploadAction) -> Option<Seq<T>> {
    match action {
        UploadAction::Skip => None,
        UploadAction::Write => Some(contents),
        UploadAction::Grow { .. } => Some(contents),
    }
}

/// Stages, measures and re-uploads the per-frame contents of one device
/// buffer of elements of type `T`.
pub struct BufferCache<T> {
    staged: Vec<T>,
    capacity: usize,
}

impl<T> BufferCache<T> {
    /// The staged contents: what the next upload will write.
    pub closed spec fn contents(self) -> Seq<T> {
        self.staged@
    }

    /// The capacity, in elements, of the device buffer the host holds for
    /// this cache.
    pub closed spec fn cap(self) -> int {
        self.capacity as int
    }

    /// A fresh cache: nothing staged, no device buffer allocated yet.
    pub fn new() -> (cache: Self)
        ensures
            cache.contents() == Seq::<T>::empty(),
            cache.cap() == 0,
    {
        BufferCache { staged: Vec::new(), capacity: 0 }
    }

    /// Drop the staged contents and reset the logical length to zero. The
    /// capacity and the device buffer are untouched.
    pub fn clear(&mut self)
        ensures
            final(self).contents() == Seq::<T>::empty(),
            final(self).cap() == old(self).cap(),
    {
        self.staged.clear();
    }

    /// Copy `items` onto the end of the staging list and return the half-open
    /// logical range just written. The capacity is untouched.
    pub fn append(&mut self, items: &Vec<T>) -> (span: Span) where T: Copy
        ensures
            final(self).contents() == old(self).contents() + items@,
            final(self).cap() == old(self).cap(),
            span.start == old(self).contents().len(),
            span.end == final(self).contents().len(),
            span.end - span.start == items@.len(),
    {
        let start = self.staged.len();
        let mut i: usize = 0;
        while i < items.len()
            invariant
                i <= items@.len(),
                self.staged@ == old(self).staged@ + items@.take(i as int),
                self.capacity == old(self).capacity,
            decreases items@.len() - i,
        {
            self.staged.push(items[i]);
            proof {
                assert(items@.take(i + 1) =~= items@.take(i as int).push(items@[i as int]));
            }
            i = i + 1;
        }
        proof {
            assert(items@.take(items@.len() as int) =~= items@);
        }
        Span { start, end: self.staged.len() }
    }

    /// The capacity, in elements, of the device buffer the host holds for
    /// this cache.
    pub fn capacity(&self) -> (c: usize)
        ensures
            c as int == self.cap(),
    {
        self.capacity
    }

    /// The current logical length: how many elements are staged.
    pub fn length(&self) -> (n: usize)
        ensures
            n == self.contents().len(),
    {
        self.staged.len()
    }

    /// Whether nothing is staged. A host must not bind a zero-length buffer,
    /// so an empty cache offers no buffer slice.
    pub fn is_empty(&self) -> (empty: bool)
        ensures
            empty <==> self.contents().len() == 0,
    {
        self.staged.len() == 0
    }

    /// The staged contents, for the host to hand to the device verbatim when
    /// an [`UploadAction`] asks for a write.
    pub fn staged_items(&self) -> (items: &Vec<T>)
        ensures
            items@ == self.contents(),
    {
        &self.staged
    }

    /// Settle the capacity for the staged contents and say what the host must
    /// do with the device buffer. The staged contents are untouched, so a
    /// second update without an intervening `append` re-uploads exactly the
    /// same contents in place. The capacity never shrinks.
    pub fn update(&mut self) -> (action: UploadAction)
        requires
            old(self).contents().len() <= usize::MAX / 2,
        ensures
            final(self).contents() == old(self).contents(),
            final(self).cap() == grown_capacity(old(self).contents().len() as int, old(self).cap()),
            final(self).cap() >= old(self).cap(),
            final(self).contents().len() <= final(self).cap() || final(self).contents().len() == 0,
            action == update_decision(old(self).contents().len() as int, old(self).cap()),
    {
        let len = self.staged.len();
        if len == 0 {
            UploadAction::Skip
        } else if len > self.capacity {
            // In this branch capacity < len <= usize::MAX / 2, so doubling
            // cannot overflow.
            let doubled = self.capacity * 2;
            let new_capacity = if doubled > len {
                doubled
            } else {
                len
            };
            self.capacity = new_capacity;
            UploadAction::Grow { new_capacity }
        } else {
            UploadAction::Write
        }
    }
}

/// Law: clearing, then appending `items`, stages exactly `items`, so the
/// reported length is `items.len()`; a further clear resets the length to
/// zero while the capacity, untouched by clear and append alike, keeps its
/// old value. The states are related exactly as the cache operations'
/// contracts relate them.
pub proof fn lemma_clear_append_length<T>(
    c0: BufferCache<T>,
    c1: BufferCache<T>,
    c2: BufferCache<T>,
    c3: BufferCache<T>,
    items: Seq<T>,
)
    requires
        c1.contents() == Seq::<T>::empty(),
        c1.cap() == c0.cap(),
        c2.contents() == c1.contents() + items,
        c2.cap() == c1.cap(),
        c3.contents() == Seq::<T>::empty(),
        c3.cap() == c2.cap(),
    ensures
        c2.contents().len() == items.len(),
        c3.contents().len() == 0,
        c3.cap() == c0.cap(),
{
    assert(c1.contents() + items =~= items);
}

/// Law: two consecutive updates with no intervening append write identical
/// contents to the device buffer, and the second update never reallocates,
/// so the re-upload neither duplicates nor corrupts what the first wrote.
/// `contents` and `cap` describe the cache before the first update; the
/// contracts of `update` make both updates decide as stated here.
pub proof fn lemma_update_twice_identical<T>(contents: Seq<T>, cap: int)
    requires
        cap >= 0,
    ensures
        ({
            let first = update_decision(contents.len() as int, cap);
            let second = update_decision(
                contents.len() as int,
                grown_capacity(contents.len() as int, cap),
            );
            upload_payload(contents, first) == upload_payload(contents, second)
                && !(second is Grow)
        }),
{
}

} // verus!
