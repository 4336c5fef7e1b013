//! Lists of texts and their layout as plain, indented or bulleted blocks.
use vstd::prelude::*;
use vstd::string::*;

verus! {

/// The number of columns by which `Description::indent` shifts a block.
pub const INDENTATION_SIZE: usize = 2;

/// A run of `n` blanks.
pub open spec fn spaces(n: nat) -> Seq<char> {
    Seq::new(n, |i: int| ' ')
}

/// What one character of an element contributes to the laid-out block: a
/// line break is followed by the padding of the next line, any other
/// character stands for itself.
pub open spec fn line_piece(c: char, pad: Seq<char>) -> Seq<char> {
    if c == '\n' {
        seq!['\n'] + pad
    } else {
        seq![c]
    }
}

/// `text` with `pad` inserted behind each of its line breaks.
pub open spec fn pad_lines(text: Seq<char>, pad: Seq<char>) -> Seq<char>
    decreases text.len(),
{
    if text.len() == 0 {
        Seq::empty()
    } else {
        pad_lines(text.drop_last(), pad) + line_piece(text.last(), pad)
    }
}

/// The layout of one element. Its first line starts behind `indent` blanks,
/// and behind a bullet when `bulleted`; its further lines are aligned with
/// the first.
pub open spec fn render_element(text: Seq<char>, indent: nat, bulleted: bool) -> Seq<char> {
    if bulleted {
        spaces(indent) + seq!['*', ' '] + pad_lines(text, spaces(indent + 2))
    } else {
        spaces(indent) + pad_lines(text, spaces(indent))
    }
}

/// The layout of a list: the layouts of its elements, in order, separated by
/// line breaks.
pub open spec fn render_list(elements: Seq<Seq<char>>, indent: nat, bulleted: bool) -> Seq<char>
    decreases elements.len(),
{
    if elements.len() == 0 {
        Seq::empty()
    } else if elements.len() == 1 {
        render_element(elements[0], indent, bulleted)
    } else {
        render_list(elements.drop_last(), indent, bulleted) + seq!['\n'] + render_element(
            elements.last(),
            indent,
            bulleted,
        )
    }
}

/// The texts held by a vector of strings.
pub open spec fn texts_of(v: Seq<String>) -> Seq<Seq<char>> {
    Seq::new(v.len(), |i: int| v[i]@)
}

/// Padding with nothing leaves a text as it is.
pub proof fn lemma_pad_lines_empty(text: Seq<char>)
    ensures
        pad_lines(text, Seq::empty()) == text,
    decreases text.len(),
{
    if text.len() > 0 {
        lemma_pad_lines_empty(text.drop_last());
        assert(pad_lines(text, Seq::empty()) =~= text.drop_last().push(text.last()));
        assert(text.drop_last().push(text.last()) =~= text);
    }
}

/// A plain list of one element that is not indented is laid out as that
/// element.
pub proof fn lemma_render_single_plain(text: Seq<char>)
    ensures
        render_list(seq![text], 0, false) == text,
{
    lemma_pad_lines_empty(text);
    assert(spaces(0) =~= Seq::<char>::empty());
    assert(seq![text][0] == text);
    assert(render_element(text, 0, false) =~= text);
}

/// Builds a run of `n` blanks.
pub fn make_spaces(n: usize) -> (s: String)
    ensures
        s@ == spaces(n as nat),
{
    let mut s = String::new();
    let mut i: usize = 0;
    while i < n
        invariant
            i <= n,
            s@ == spaces(i as nat),
        decreases n - i,
    {
        s.append(" ");
        i = i + 1;
        proof {
            reveal_strlit(" ");
            assert(s@ =~= spaces(i as nat));
        }
    }
    s
}

/// Copies `text`, inserting `pad` behind each line break.
pub fn pad_text(text: &str, pad: &str) -> (s: String)
    ensures
        s@ == pad_lines(text@, pad@),
{
    let n = text.unicode_len();
    let mut s = String::new();
    let mut i: usize = 0;
    while i < n
        invariant
            i <= n,
            n == text@.len(),
            s@ == pad_lines(text@.subrange(0, i as int), pad@),
        decreases n - i,
    {
        let c = text.get_char(i);
        s.append(text.substring_char(i, i + 1));
        if c == '\n' {
            s.append(pad);
        }
        proof {
            let before = text@.subrange(0, i as int);
            let after = text@.subrange(0, i + 1);
            assert(after.drop_last() =~= before);
            assert(after.last() == c);
            assert(text@.subrange(i as int, i + 1) =~= seq![c]);
            assert(s@ =~= pad_lines(before, pad@) + line_piece(c, pad@));
        }
        i = i + 1;
    }
    assert(text@.subrange(0, n as int) =~= text@);
    s
}

/// Lays out one element as `render_element` states.
pub fn render_one(text: &str, indent: usize, bulleted: bool) -> (s: String)
    requires
        indent + 2 <= usize::MAX,
    ensures
        s@ == render_element(text@, indent as nat, bulleted),
{
    let mut s = make_spaces(indent);
    if bulleted {
        s.append("* ");
        let pad = make_spaces(indent + 2);
        let body = pad_text(text, pad.as_str());
        s.append(body.as_str());
        proof {
            reveal_strlit("* ");
            assert("* "@ =~= seq!['*', ' ']);
        }
    } else {
        let pad = make_spaces(indent);
        let body = pad_text(text, pad.as_str());
        s.append(body.as_str());
    }
    s
}

/// A list of texts together with the way it is to be laid out.
pub struct Description {
    elements: Vec<String>,
    indented: bool,
    bulleted: bool,
}

impl Description {
    /// The texts of the elements, in order.
    pub closed spec fn elements(&self) -> Seq<Seq<char>> {
        texts_of(self.elements@)
    }

    /// The number of blanks in front of each line.
    pub closed spec fn indent_size(&self) -> nat {
        if self.indented {
            INDENTATION_SIZE as nat
        } else {
            0
        }
    }

    /// Whether each element is introduced by a bullet.
    pub closed spec fn bulleted(&self) -> bool {
        self.bulleted
    }

    /// The laid-out text of the whole list.
    pub open spec fn text(&self) -> Seq<char> {
        render_list(self.elements(), self.indent_size(), self.bulleted())
    }

    /// An empty list, laid out plainly.
    pub fn new() -> (d: Description)
        ensures
            d.elements() == Seq::<Seq<char>>::empty(),
            d.indent_size() == 0,
            !d.bulleted(),
    {
        let d = Description { elements: Vec::new(), indented: false, bulleted: false };
        assert(d.elements() =~= Seq::<Seq<char>>::empty());
        d
    }

    /// A plainly laid-out list of the given elements.
    pub fn from_elements(elements: Vec<String>) -> (d: Description)
        ensures
            d.elements() == texts_of(elements@),
            d.indent_size() == 0,
            !d.bulleted(),
    {
        Description { elements, indented: false, bulleted: false }
    }

    /// Adds an element at the end of the list.
    pub fn push(&mut self, element: String)
        ensures
            final(self).elements() == old(self).elements().push(element@),
            final(self).indent_size() == old(self).indent_size(),
            final(self).bulleted() == old(self).bulleted(),
    {
        self.elements.push(element);
        assert(self.elements() =~= old(self).elements().push(element@));
    }

    /// The same list, each line shifted right by `INDENTATION_SIZE` columns.
    pub fn indent(self) -> (d: Description)
        ensures
            d.elements() == self.elements(),
            d.indent_size() == INDENTATION_SIZE,
            d.bulleted() == self.bulleted(),
    {
        Description { elements: self.elements, indented: true, bulleted: self.bulleted }
    }

    /// The same list, each element introduced by a bullet.
    pub fn bullet_list(self) -> (d: Description)
        ensures
            d.elements() == self.elements(),
            d.indent_size() == self.indent_size(),
            d.bulleted(),
    {
        Description { elements: self.elements, indented: self.indented, bulleted: true }
    }

    /// The number of elements.
    pub fn len(&self) -> (n: usize)
        ensures
            n == self.elements().len(),
    {
        self.elements.len()
    }

    /// Lays the list out as text.
    pub fn render(&self) -> (s: String)
        ensures
            s@ == self.text(),
    {
        let n = self.elements.len();
        let indent: usize = if self.indented {
            INDENTATION_SIZE
        } else {
            0
        };
        let mut s = String::new();
        let mut i: usize = 0;
        while i < n
            invariant
                i <= n,
                n == self.elements@.len(),
                indent == self.indent_size(),
                indent <= INDENTATION_SIZE,
                s@ == render_list(
                    self.elements().subrange(0, i as int),
                    self.indent_size(),
                    self.bulleted(),
                ),
            decreases n - i,
        {
            if i > 0 {
                s.append("\n");
            }
            let item = render_one(self.elements[i].as_str(), indent, self.bulleted);
            s.append(item.as_str());
            proof {
                reveal_strlit("\n");
                assert("\n"@ =~= seq!['\n']);
                let before = self.elements().subrange(0, i as int);
                let after = self.elements().subrange(0, i + 1);
                assert(after.drop_last() =~= before);
                assert(after.last() == self.elements@[i as int]@);
                assert(s@ =~= render_list(after, self.indent_size(), self.bulleted()));
            }
            i = i + 1;
        }
        assert(self.elements().subrange(0, n as int) =~= self.elements());
        s
    }
}

} // verus!
