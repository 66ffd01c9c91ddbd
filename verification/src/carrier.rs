//! A transport-neutral header carrier: header lines in the order in which
//! they were appended, several lines per name allowed.

use vstd::prelude::*;

verus! {

/// One header line.
#[derive(Clone, Debug)]
pub struct Header {
    pub name: String,
    pub value: String,
}

impl View for Header {
    type V = (Seq<char>, Seq<char>);

    open spec fn view(&self) -> (Seq<char>, Seq<char>) {
        (self.name@, self.value@)
    }
}

/// Header lines of one request, inbound or outbound.
#[derive(Clone, Debug)]
pub struct HeaderCarrier {
    pub(crate) entries: Vec<Header>,
}

impl View for HeaderCarrier {
    type V = Seq<(Seq<char>, Seq<char>)>;

    closed spec fn view(&self) -> Seq<(Seq<char>, Seq<char>)> {
        Seq::new(self.entries@.len(), |i: int| self.entries@[i]@)
    }
}

/// The value of the first line at or after `from` whose name is `name`.
pub open spec fn first_value_from(
    lines: Seq<(Seq<char>, Seq<char>)>,
    name: Seq<char>,
    from: int,
) -> Option<Seq<char>>
    decreases lines.len() - from,
{
    if from < 0 || from >= lines.len() {
        None
    } else if lines[from].0 == name {
        Some(lines[from].1)
    } else {
        first_value_from(lines, name, from + 1)
    }
}

/// The value of the first line whose name is `name`, if there is one.
pub open spec fn first_value(lines: Seq<(Seq<char>, Seq<char>)>, name: Seq<char>) -> Option<
    Seq<char>,
> {
    first_value_from(lines, name, 0)
}

/// The view of an optional string slice.
pub open spec fn text_of(s: Option<&str>) -> Option<Seq<char>> {
    match s {
        Some(t) => Some(t@),
        None => None,
    }
}

/// Appending a line leaves every earlier answer as it was; a name that was
/// absent now answers with the new line's value if the new line carries it.
pub proof fn lemma_first_value_push(
    lines: Seq<(Seq<char>, Seq<char>)>,
    line: (Seq<char>, Seq<char>),
    name: Seq<char>,
    from: int,
)
    requires
        0 <= from <= lines.len(),
    ensures
        first_value_from(lines.push(line), name, from) == match first_value_from(
            lines,
            name,
            from,
        ) {
            Some(v) => Some(v),
            None => if line.0 == name {
                Some(line.1)
            } else {
                None
            },
        },
    decreases lines.len() - from,
{
    let longer = lines.push(line);
    if from < lines.len() {
        assert(longer[from] == lines[from]);
        if lines[from].0 != name {
            lemma_first_value_push(lines, line, name, from + 1);
        }
    } else {
        assert(longer[from] == line);
        assert(first_value_from(longer, name, from + 1) is None);
    }
}

impl HeaderCarrier {
    /// A carrier without lines.
    pub fn new() -> (r: HeaderCarrier)
        ensures
            r@ == Seq::<(Seq<char>, Seq<char>)>::empty(),
    {
        let r = HeaderCarrier { entries: Vec::new() };
        assert(r@ =~= Seq::<(Seq<char>, Seq<char>)>::empty());
        r
    }

    /// The number of lines.
    pub fn len(&self) -> (n: usize)
        ensures
            n == self@.len(),
    {
        self.entries.len()
    }

    /// Whether the carrier holds no line.
    pub fn is_empty(&self) -> (b: bool)
        ensures
            b == (self@.len() == 0),
    {
        self.entries.len() == 0
    }

    /// Adds a line after all others; lines of the same name stay.
    pub fn append(&mut self, name: &str, value: String)
        ensures
            final(self)@ == old(self)@.push((name@, value@)),
    {
        self.entries.push(Header { name: name.to_owned(), value });
        assert(self@ =~= old(self)@.push((name@, value@)));
    }

    /// The value of the first line called `name`.
    pub fn get_one(&self, name: &str) -> (r: Option<&str>)
        ensures
            text_of(r) == first_value(self@, name@),
    {
        let wanted = name.to_owned();
        let mut i: usize = 0;
        while i < self.entries.len()
            invariant
                i <= self.entries.len(),
                wanted@ == name@,
                first_value(self@, name@) == first_value_from(self@, name@, i as int),
            decreases self.entries.len() - i,
        {
            if self.entries[i].name == wanted {
                return Some(self.entries[i].value.as_str());
            }
            i += 1;
        }
        None
    }

    /// The name of line `i`.
    pub fn name_at(&self, i: usize) -> (r: &str)
        requires
            i < self@.len(),
        ensures
            r@ == self@[i as int].0,
    {
        self.entries[i].name.as_str()
    }

    /// The value of line `i`.
    pub fn value_at(&self, i: usize) -> (r: &str)
        requires
            i < self@.len(),
        ensures
            r@ == self@[i as int].1,
    {
        self.entries[i].value.as_str()
    }

    /// The names of all lines, in the carrier's order, one per line.
    pub fn keys(&self) -> (r: Vec<String>)
        ensures
            r@.len() == self@.len(),
            forall|i: int| 0 <= i < r@.len() ==> (#[trigger] r@[i])@ == self@[i].0,
    {
        let mut names: Vec<String> = Vec::new();
        let mut i: usize = 0;
        while i < self.entries.len()
            invariant
                i <= self.entries.len(),
                names@.len() == i,
                forall|j: int| 0 <= j < i ==> (#[trigger] names@[j])@ == self@[j].0,
            decreases self.entries.len() - i,
        {
            names.push(self.entries[i].name.clone());
            i += 1;
        }
        names
    }
}

} // verus!
