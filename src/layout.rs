use vstd::prelude::*;

verus! {

/// How a downstream consumer reads a merged document.
#[derive(Clone, Copy, Debug, PartialEq, Eq, Structural)]
pub enum Layout {
    Recursive,
}

impl Layout {
    /// The lowercase name under which the layout is written.
    pub open spec fn spec_name(self) -> Seq<char> {
        match self {
            Layout::Recursive => "recursive"@,
        }
    }

    /// The lowercase name under which the layout is written.
    pub fn name(&self) -> (r: String)
        ensures
            r@ == self.spec_name(),
    {
        match self {
            Layout::Recursive => String::from_str("recursive"),
        }
    }

    /// The layout that a merge uses: the one asked for, else the default.
    pub open spec fn chosen(requested: Option<Layout>) -> Layout {
        match requested {
            Some(l) => l,
            None => Layout::Recursive,
        }
    }

    /// The layout that a merge uses: the one asked for, else the default.
    pub fn or_default(requested: Option<Layout>) -> (r: Layout)
        ensures
            r == Layout::chosen(requested),
    {
        match requested {
            Some(l) => l,
            None => Layout::default(),
        }
    }
}

impl Default for Layout {
    fn default() -> (r: Layout)
        ensures
            r == Layout::Recursive,
    {
        Layout::Recursive
    }
}

} // verus!
