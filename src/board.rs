//! Hardware board descriptors. A board's identity is given by its defining
//! fields, its name and its role: two descriptors that agree on those are the
//! same board, even where one carries less descriptor data than the other.

use vstd::prelude::*;

verus! {

/// The mathematical content of a board.
pub ghost struct BoardView {
    pub name: Seq<char>,
    pub is_main: bool,
    pub bsp_dir: Option<Seq<char>>,
    pub template_dir: Option<Seq<char>>,
    pub required_crates: Option<Seq<Seq<char>>>,
}

/// A hardware descriptor: a name, whether it is the main programmable
/// board, optional board-support-package and template directories, and an
/// optional ordered list of packages that a project using it needs.
pub struct Board {
    name: String,
    is_main: bool,
    bsp_dir: Option<String>,
    template_dir: Option<String>,
    required_crates: Option<Vec<String>>,
}

pub open spec fn opt_str_view(o: Option<String>) -> Option<Seq<char>> {
    match o {
        Some(s) => Some(s@),
        None => None,
    }
}

pub open spec fn str_seq_view(v: Seq<String>) -> Seq<Seq<char>> {
    v.map_values(|s: String| s@)
}

pub open spec fn opt_strs_view(o: Option<Vec<String>>) -> Option<Seq<Seq<char>>> {
    match o {
        Some(v) => Some(str_seq_view(v@)),
        None => None,
    }
}

/// Two descriptors denote the same board when their names and roles agree.
pub open spec fn same_board(a: BoardView, b: BoardView) -> bool {
    a.name == b.name && a.is_main == b.is_main
}

impl View for Board {
    type V = BoardView;

    closed spec fn view(&self) -> BoardView {
        BoardView {
            name: self.name@,
            is_main: self.is_main,
            bsp_dir: opt_str_view(self.bsp_dir),
            template_dir: opt_str_view(self.template_dir),
            required_crates: opt_strs_view(self.required_crates),
        }
    }
}

/// Clones a list of strings, keeping every element's content.
pub fn clone_strs(v: &Vec<String>) -> (r: Vec<String>)
    ensures
        str_seq_view(r@) == str_seq_view(v@),
{
    let mut r: Vec<String> = Vec::new();
    let mut i: usize = 0;
    while i < v.len()
        invariant
            i <= v.len(),
            r.len() == i,
            forall|j: int| 0 <= j < i ==> r@[j]@ == v@[j]@,
        decreases v.len() - i,
    {
        let s: String = v[i].clone();
        assert(s@ == v@[i as int]@);
        r.push(s);
        i = i + 1;
    }
    assert(str_seq_view(r@) =~= str_seq_view(v@));
    r
}

impl PartialEq for Board {
    fn eq(&self, o: &Board) -> (r: bool) {
        let same_name = String::eq(&self.name, &o.name);
        same_name && self.is_main == o.is_main
    }
}

impl vstd::std_specs::cmp::PartialEqSpecImpl for Board {
    open spec fn obeys_eq_spec() -> bool {
        true
    }

    open spec fn eq_spec(&self, o: &Board) -> bool {
        same_board(self@, o@)
    }
}

impl Clone for Board {
    fn clone(&self) -> (r: Board)
        ensures
            r@ == self@,
    {
        let crates = match &self.required_crates {
            Some(v) => Some(clone_strs(v)),
            None => None,
        };
        Board {
            name: self.name.clone(),
            is_main: self.is_main,
            bsp_dir: self.bsp_dir.clone(),
            template_dir: self.template_dir.clone(),
            required_crates: crates,
        }
    }
}

impl Board {
    /// Builds a board descriptor from its fields.
    pub fn new(
        name: String,
        is_main: bool,
        bsp_dir: Option<String>,
        template_dir: Option<String>,
        required_crates: Option<Vec<String>>,
    ) -> (r: Board)
        ensures
            r@ == (BoardView {
                name: name@,
                is_main,
                bsp_dir: opt_str_view(bsp_dir),
                template_dir: opt_str_view(template_dir),
                required_crates: opt_strs_view(required_crates),
            }),
    {
        Board { name, is_main, bsp_dir, template_dir, required_crates }
    }

    pub fn get_name(&self) -> (r: &String)
        ensures
            r@ == self@.name,
    {
        &self.name
    }

    /// Whether this is a main, programmable board.
    pub fn is_main_board(&self) -> (r: bool)
        ensures
            r == self@.is_main,
    {
        self.is_main
    }

    pub fn get_bsp_dir(&self) -> (r: &Option<String>)
        ensures
            opt_str_view(*r) == self@.bsp_dir,
    {
        &self.bsp_dir
    }

    pub fn get_template_dir(&self) -> (r: &Option<String>)
        ensures
            opt_str_view(*r) == self@.template_dir,
    {
        &self.template_dir
    }

    /// The packages that a project using this board needs, if any.
    pub fn required_crates(&self) -> (r: &Option<Vec<String>>)
        ensures
            opt_strs_view(*r) == self@.required_crates,
    {
        &self.required_crates
    }
}

} // verus!
