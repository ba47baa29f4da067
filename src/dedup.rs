use vstd::prelude::*;

verus! {

/// The last text this component produced, against which new candidates are
/// compared: a candidate equal to it is a repeat and is not produced again.
pub struct Dedup {
    last: Option<String>,
}

/// The characters of an optional string.
pub open spec fn opt_text(o: Option<String>) -> Option<Seq<char>> {
    match o {
        Some(s) => Some(s@),
        None => None,
    }
}

impl View for Dedup {
    type V = Option<Seq<char>>;

    closed spec fn view(&self) -> Option<Seq<char>> {
        opt_text(self.last)
    }
}

impl Dedup {
    /// Nothing produced yet.
    pub fn new() -> (r: Dedup)
        ensures
            r@ == None::<Seq<char>>,
    {
        Dedup { last: None }
    }

    /// Whether `text` equals the last text produced.
    pub fn is_repeat(&self, text: &String) -> (r: bool)
        ensures
            r == (self@ == Some(text@)),
    {
        match &self.last {
            Some(last) => *last == *text,
            None => false,
        }
    }

    /// Produces `text` unless it repeats the last text produced; a produced
    /// text becomes the new last one.
    pub fn offer(&mut self, text: String) -> (r: Option<String>)
        ensures
            old(self)@ == Some(text@) ==> r.is_none() && final(self)@ == old(self)@,
            old(self)@ != Some(text@) ==> r == Some(text) && final(self)@ == Some(text@),
    {
        if self.is_repeat(&text) {
            None
        } else {
            self.last = Some(text.clone());
            Some(text)
        }
    }
}

} // verus!
