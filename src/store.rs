use crate::loader::{entries_of_text, parse_entries};
use vstd::prelude::*;

verus! {

/// The abstract value of a list of prompt/response pairs.
pub open spec fn pairs_view(v: Seq<(String, String)>) -> Seq<(Seq<char>, Seq<char>)> {
    v.map_values(|p: (String, String)| (p.0@, p.1@))
}

/// An ordered, append-only collection of prompt/response pairs. A card is
/// identified by its position in the store.
pub struct EntryStore {
    entries: Vec<(String, String)>,
}

impl View for EntryStore {
    type V = Seq<(Seq<char>, Seq<char>)>;

    closed spec fn view(&self) -> Self::V {
        pairs_view(self.entries@)
    }
}

impl EntryStore {
    /// An empty store.
    pub fn new() -> (r: EntryStore)
        ensures
            r@ == Seq::<(Seq<char>, Seq<char>)>::empty(),
    {
        let r = EntryStore { entries: Vec::new() };
        assert(r@ =~= Seq::<(Seq<char>, Seq<char>)>::empty());
        r
    }

    /// A store holding the given pairs, in order.
    pub fn from_pairs(entries: Vec<(String, String)>) -> (r: EntryStore)
        ensures
            r@ == pairs_view(entries@),
    {
        EntryStore { entries }
    }

    /// Appends one prompt/response pair; nothing is deduplicated.
    pub fn add(&mut self, prompt: String, response: String)
        ensures
            final(self)@ == old(self)@.push((prompt@, response@)),
    {
        let ghost p = prompt@;
        let ghost q = response@;
        self.entries.push((prompt, response));
        assert(self@ =~= old(self)@.push((p, q)));
    }

    /// Appends the pairs read from comma-separated text, in order.
    pub fn load_text(&mut self, text: &str)
        ensures
            final(self)@ == old(self)@ + entries_of_text(text@),
    {
        let mut more = parse_entries(text);
        let ghost added = more@;
        self.entries.append(&mut more);
        assert(self@ =~= old(self)@ + pairs_view(added));
    }

    /// The number of pairs.
    pub fn size(&self) -> (r: usize)
        ensures
            r == self@.len(),
    {
        self.entries.len()
    }

    /// Whether the store holds at least one pair.
    pub fn has_data(&self) -> (r: bool)
        ensures
            r == (self@.len() > 0),
    {
        self.entries.len() > 0
    }

    /// The prompt of the pair at position `i`.
    pub fn prompt(&self, i: usize) -> (r: &String)
        requires
            i < self@.len(),
        ensures
            r@ == self@[i as int].0,
    {
        &self.entries[i].0
    }

    /// The response of the pair at position `i`.
    pub fn response(&self, i: usize) -> (r: &String)
        requires
            i < self@.len(),
        ensures
            r@ == self@[i as int].1,
    {
        &self.entries[i].1
    }

    /// The pairs, in order.
    pub fn pairs(&self) -> (r: &Vec<(String, String)>)
        ensures
            pairs_view(r@) == self@,
    {
        &self.entries
    }

    /// Gives up the pairs, in order.
    pub fn into_pairs(self) -> (r: Vec<(String, String)>)
        ensures
            pairs_view(r@) == self@,
    {
        self.entries
    }
}

} // verus!
