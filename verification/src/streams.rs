use vstd::prelude::*;

verus! {

/// A finite sequence of raw text fragments, consumed front to back. Models
/// the fragment sequence of one in-flight request: `next` yields each
/// fragment exactly once, in production order, and the stream is not
/// restartable once exhausted.
pub struct TextStream {
    items: Vec<String>,
    pos: usize,
}

impl View for TextStream {
    type V = Seq<Seq<char>>;

    /// The fragments not yet yielded, in the order they will come out.
    closed spec fn view(&self) -> Seq<Seq<char>> {
        self.items@.map_values(|s: String| s@).skip(self.pos as int)
    }
}

impl TextStream {
    #[verifier::type_invariant]
    spec fn wf(&self) -> bool {
        self.pos <= self.items.len()
    }

    /// A stream that will yield the given fragments, in order.
    pub fn new(items: Vec<String>) -> (r: Self)
        ensures
            r@ == items@.map_values(|s: String| s@),
    {
        let r = TextStream { items, pos: 0 };
        proof {
            assert(r@ =~= r.items@.map_values(|s: String| s@));
        }
        r
    }

    /// Yields the next fragment, or `None` once the stream is exhausted.
    pub fn next(&mut self) -> (r: Option<String>)
        ensures
            old(self)@.len() == 0 ==> (r is None && final(self)@ == old(self)@),
            old(self)@.len() > 0 ==> ((r matches Some(s) && s@ == old(self)@[0])
                && final(self)@ == old(self)@.drop_first()),
    {
        proof {
            use_type_invariant(&*self);
        }
        if self.pos < self.items.len() {
            let s = self.items[self.pos].clone();
            self.pos = self.pos + 1;
            proof {
                assert(self@ =~= old(self)@.drop_first());
            }
            Some(s)
        } else {
            None
        }
    }
}

/// A finite sequence of (is-final, text) fragments, consumed front to back.
/// Models the fragment sequence the rich capability produces for one
/// request: a `false` marker is live, possibly superseded text, a `true`
/// marker is settled, authoritative text.
pub struct GenerationStream {
    items: Vec<(bool, String)>,
    pos: usize,
}

impl View for GenerationStream {
    type V = Seq<(bool, Seq<char>)>;

    /// The fragments not yet yielded, in the order they will come out.
    closed spec fn view(&self) -> Seq<(bool, Seq<char>)> {
        self.items@.map_values(|p: (bool, String)| (p.0, p.1@)).skip(self.pos as int)
    }
}

impl GenerationStream {
    #[verifier::type_invariant]
    spec fn wf(&self) -> bool {
        self.pos <= self.items.len()
    }

    /// A stream that will yield the given fragments, in order.
    pub fn new(items: Vec<(bool, String)>) -> (r: Self)
        ensures
            r@ == items@.map_values(|p: (bool, String)| (p.0, p.1@)),
    {
        let r = GenerationStream { items, pos: 0 };
        proof {
            assert(r@ =~= r.items@.map_values(|p: (bool, String)| (p.0, p.1@)));
        }
        r
    }

    /// Yields the next fragment, or `None` once the stream is exhausted.
    pub fn next(&mut self) -> (r: Option<(bool, String)>)
        ensures
            old(self)@.len() == 0 ==> (r is None && final(self)@ == old(self)@),
            old(self)@.len() > 0 ==> ((r matches Some(p) && p.0 == old(self)@[0].0
                && p.1@ == old(self)@[0].1) && final(self)@ == old(self)@.drop_first()),
    {
        proof {
            use_type_invariant(&*self);
        }
        if self.pos < self.items.len() {
            let p = &self.items[self.pos];
            let frag = (p.0, p.1.clone());
            self.pos = self.pos + 1;
            proof {
                assert(self@ =~= old(self)@.drop_first());
            }
            Some(frag)
        } else {
            None
        }
    }
}

} // verus!
