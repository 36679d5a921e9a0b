//! The typesetting source generated for one equation.
use vstd::prelude::*;
use crate::equation::Equation;
use crate::text::{strip_leading_hashes, without_leading_hashes};

verus! {

/// The document up to the colour value of the `equationcolor` definition.
pub const LATEX_HEAD: &'static str = "\\documentclass[border=1pt]{standalone}\n                \\usepackage{amsmath}\n                \\usepackage{xfrac}\n                \\usepackage{gfsneohellenicot}\n                \\usepackage{xcolor}\n                \\definecolor{equationcolor}{HTML}{";

/// From the end of the colour definition to the start of the math-mode body.
pub const LATEX_MIDDLE: &'static str = "}\n                \\begin{document}\n                \\setbox0\\hbox{\\Large \\textcolor{equationcolor}{$ ";

/// From the end of the body: the box is given a height of at least 12mm and
/// a depth of at least 5mm, so that all equations share their vertical metrics.
pub const LATEX_TAIL: &'static str = " $}}\n                \\dimen0=12mm\n                \\ifdim\\ht0<\\dimen0\n                \\ht0=\\dimen0\n                \\fi\n                \\ifdim\\dp0<5mm\n                \\dp0=5mm\n                \\fi\n                \\box0\n                \\end{document}";

/// The standalone document for a body in a colour given as hex RGB, with or
/// without leading `#`.
pub open spec fn latex_document(color: Seq<char>, body: Seq<char>) -> Seq<char> {
    LATEX_HEAD@ + without_leading_hashes(color) + LATEX_MIDDLE@ + body + LATEX_TAIL@
}

impl Equation {
    /// The typesetting source for this equation in the given colour.
    pub fn generate_latex(&self, color: &str) -> (r: String)
        ensures
            r@ == latex_document(color@, self.body@),
    {
        let color_code = strip_leading_hashes(color);
        let mut doc = String::from_str(LATEX_HEAD);
        doc.append(color_code);
        doc.append(LATEX_MIDDLE);
        doc.append(self.body.as_str());
        doc.append(LATEX_TAIL);
        doc
    }
}

} // verus!
