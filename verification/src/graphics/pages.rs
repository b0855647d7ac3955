use vstd::prelude::*;

verus! {

/// The pages of a font, by page number. A font always has page 0; further
/// pages may leave gaps between them.
#[derive(Debug)]
pub struct Pages<T> {
    first: T,
    rest: Vec<Option<T>>,
}

impl<T> View for Pages<T> {
    type V = Seq<Option<T>>;

    /// One entry per page number up to the last page: the page, or `None`
    /// for a gap.
    closed spec fn view(&self) -> Seq<Option<T>> {
        seq![Some(self.first)] + self.rest@
    }
}

/// The page with number `index` among `pages`, if there is one.
pub open spec fn page_at<T>(pages: Seq<Option<T>>, index: int) -> Option<T> {
    if 0 <= index < pages.len() {
        pages[index]
    } else {
        None
    }
}

impl<T> Pages<T> {
    /// Page 0 is always there.
    pub proof fn lemma_has_first(&self)
        ensures
            self@.len() > 0,
            self@[0] is Some,
    {
    }

    /// A set of pages that holds `first` as page 0 and nothing else.
    pub fn new(first: T) -> (r: Self)
        ensures
            r@ == seq![Some(first)],
    {
        Pages { first, rest: Vec::new() }
    }

    /// Puts `page` at number `index`, in place of what was there. Numbers
    /// between the old last page and `index` become gaps.
    pub fn add(&mut self, page: T, index: usize)
        ensures
            final(self)@.len() == if index < old(self)@.len() {
                old(self)@.len() as int
            } else {
                index + 1
            },
            forall|i: int|
                0 <= i < final(self)@.len() ==> #[trigger] final(self)@[i] == if i == index {
                    Some(page)
                } else {
                    page_at(old(self)@, i)
                },
    {
        if index == 0 {
            self.first = page;
        } else {
            while self.rest.len() < index
                invariant
                    self.first == old(self).first,
                    old(self).rest@.len() <= self.rest@.len(),
                    self.rest@.len() <= old(self).rest@.len() || self.rest@.len() <= index,
                    forall|i: int|
                        0 <= i < self.rest@.len() ==> #[trigger] self.rest@[i] == page_at(
                            old(self).rest@,
                            i,
                        ),
                decreases index - self.rest.len(),
            {
                self.rest.push(None);
            }
            self.rest[index - 1] = Some(page);
        }
    }

    /// Page 0.
    pub fn first(&self) -> (r: &T)
        ensures
            self@.len() > 0,
            self@[0] == Some(*r),
    {
        &self.first
    }

    /// The page with number `index`, or `None` where there is a gap or
    /// `index` lies behind the last page.
    pub fn get(&self, index: usize) -> (r: Option<&T>)
        ensures
            match r {
                Some(page) => page_at(self@, index as int) == Some(*page),
                None => page_at(self@, index as int) is None,
            },
    {
        if index == 0 {
            Some(&self.first)
        } else if index - 1 < self.rest.len() {
            match &self.rest[index - 1] {
                Some(page) => Some(page),
                None => None,
            }
        } else {
            None
        }
    }
}

} // verus!
