//! Composite: files and folders form a tree, and one operation walks
//! the whole of it uniformly.

use vstd::prelude::*;

verus! {

/// A leaf: a file.
pub struct File {
    pub name: String,
}

/// A composite: a folder holding files and folders.
pub struct Folder {
    pub name: String,
    pub children: Vec<FsEntry>,
}

/// Any node of the tree.
pub enum FsEntry {
    File(File),
    Folder(Folder),
}

/// The line a file prints.
pub open spec fn file_line(name: Seq<char>) -> Seq<char> {
    "Файл: "@ + name
}

/// The line a folder prints before its children.
pub open spec fn folder_line(name: Seq<char>) -> Seq<char> {
    "Папка: "@ + name
}

/// The lines one node produces: its own line, then — for a folder —
/// each child's lines in order.
pub open spec fn entry_lines(e: FsEntry) -> Seq<Seq<char>>
    decreases e,
{
    match e {
        FsEntry::File(f) => seq![file_line(f.name@)],
        FsEntry::Folder(d) => seq![folder_line(d.name@)] + children_lines(d.children@),
    }
}

/// The lines a list of children produces, in order.
pub open spec fn children_lines(cs: Seq<FsEntry>) -> Seq<Seq<char>>
    decreases cs,
{
    if cs.len() == 0 {
        Seq::empty()
    } else {
        entry_lines(cs[0]) + children_lines(cs.skip(1))
    }
}

/// A tree node: walking it lists every name beneath it.
pub trait Component {
    /// The lines this node produces.
    spec fn spec_lines(&self) -> Seq<Seq<char>>;

    /// Walks the node, collecting one line per entry.
    fn operation(&self) -> (lines: Vec<String>)
        ensures
            lines@.map_values(|s: String| s@) == self.spec_lines(),
    ;
}

impl File {
    pub fn new(name: &str) -> (f: File)
        ensures
            f.name@ == name@,
    {
        File { name: name.to_owned() }
    }
}

impl Component for File {
    open spec fn spec_lines(&self) -> Seq<Seq<char>> {
        seq![file_line(self.name@)]
    }

    fn operation(&self) -> (lines: Vec<String>) {
        let mut s = "Файл: ".to_owned();
        s.append(self.name.as_str());
        let mut lines: Vec<String> = Vec::new();
        lines.push(s);
        proof {
            assert(lines@.map_values(|s: String| s@) =~= self.spec_lines());
        }
        lines
    }
}

/// Appending one more child appends its lines.
proof fn lemma_children_lines_snoc(cs: Seq<FsEntry>, i: int)
    requires
        0 <= i < cs.len(),
    ensures
        children_lines(cs.take(i + 1)) == children_lines(cs.take(i)) + entry_lines(cs[i]),
    decreases i,
{
    if i == 0 {
        assert(cs.take(0) =~= Seq::<FsEntry>::empty());
        assert(cs.take(1).skip(1) =~= Seq::<FsEntry>::empty());
        assert(cs.take(1)[0] == cs[0]);
        assert(entry_lines(cs[0]) + Seq::<Seq<char>>::empty() =~= entry_lines(cs[0]));
        assert(Seq::<Seq<char>>::empty() + entry_lines(cs[0]) =~= entry_lines(cs[0]));
    } else {
        assert(cs.take(i + 1)[0] == cs[0]);
        assert(cs.take(i)[0] == cs[0]);
        assert(cs.take(i + 1).skip(1) =~= cs.skip(1).take(i));
        assert(cs.take(i).skip(1) =~= cs.skip(1).take(i - 1));
        lemma_children_lines_snoc(cs.skip(1), i - 1);
        assert(cs.skip(1)[i - 1] == cs[i]);
        assert(entry_lines(cs[0]) + (children_lines(cs.skip(1).take(i - 1)) + entry_lines(cs[i]))
            =~= (entry_lines(cs[0]) + children_lines(cs.skip(1).take(i - 1))) + entry_lines(
            cs[i],
        ));
    }
}

impl Folder {
    /// An empty folder.
    pub fn new(name: &str) -> (d: Folder)
        ensures
            d.name@ == name@,
            d.children@ == Seq::<FsEntry>::empty(),
    {
        Folder { name: name.to_owned(), children: Vec::new() }
    }

    /// Adds one entry to the folder.
    pub fn add(&mut self, component: FsEntry)
        ensures
            final(self).name == old(self).name,
            final(self).children@ == old(self).children@.push(component),
    {
        self.children.push(component);
    }
}

impl Component for Folder {
    open spec fn spec_lines(&self) -> Seq<Seq<char>> {
        seq![folder_line(self.name@)] + children_lines(self.children@)
    }

    fn operation(&self) -> (lines: Vec<String>)
        decreases *self,
    {
        let mut s = "Папка: ".to_owned();
        s.append(self.name.as_str());
        let mut lines: Vec<String> = Vec::new();
        lines.push(s);
        let ghost own = seq![folder_line(self.name@)];
        let mut i: usize = 0;
        while i < self.children.len()
            invariant
                i <= self.children.len(),
                lines@.map_values(|s: String| s@) == own + children_lines(
                    self.children@.take(i as int),
                ),
            decreases self.children.len() - i,
        {
            proof {
                lemma_children_lines_snoc(self.children@, i as int);
            }
            let mut child_lines = self.children[i].operation();
            let ghost before = lines@;
            let ghost fresh = child_lines@;
            lines.append(&mut child_lines);
            proof {
                assert(lines@.map_values(|s: String| s@) =~= before.map_values(|s: String| s@)
                    + fresh.map_values(|s: String| s@));
                assert(own + children_lines(self.children@.take(i as int)) + entry_lines(
                    self.children@[i as int],
                ) =~= own + (children_lines(self.children@.take(i as int)) + entry_lines(
                    self.children@[i as int],
                )));
            }
            i += 1;
        }
        proof {
            assert(self.children@.take(self.children@.len() as int) =~= self.children@);
        }
        lines
    }
}

impl Component for FsEntry {
    open spec fn spec_lines(&self) -> Seq<Seq<char>> {
        entry_lines(*self)
    }

    fn operation(&self) -> (lines: Vec<String>)
        decreases *self,
    {
        match self {
            FsEntry::File(f) => f.operation(),
            FsEntry::Folder(d) => d.operation(),
        }
    }
}

} // verus!
