//! The variation tree: the main line of a game plus nested variation
//! subtrees, built incrementally while the element stream is consumed.
//!
//! During construction the tree keeps a stack of open variations, one
//! per nesting level; closing a variation pops its node list and
//! attaches it as a subtree of the last move of the enclosing line.

use vstd::prelude::*;

use crate::elements::{GameElement, ParseError};
use crate::strutil::{append_decimal, push_char, spec_decimal};

verus! {

/// One node of the game tree: an element, the variation subtrees that
/// branch from it, and an optional move-sequence number.
#[derive(Debug)]
pub struct GameNode {
    pub element: GameElement,
    pub variations: Vec<VariationTree>,
    pub parent: Option<usize>,
    pub move_number: Option<usize>,
}

/// One line of a game (the main line or one variation), plus the
/// nesting bookkeeping used while the tree is being built.
#[derive(Debug)]
pub struct VariationTree {
    pub main_line: Vec<GameNode>,
    pub current_depth: usize,
    pub variation_stack: Vec<Vec<GameNode>>,
}

/// A freshly created node: the given element and move number, no
/// variations and no parent.
pub open spec fn node_is(n: GameNode, element: GameElement, move_number: Option<usize>) -> bool {
    &&& n.element == element
    &&& n.variations@.len() == 0
    &&& n.parent is None
    &&& n.move_number == move_number
}

/// `new_line` is `old_line` with `popped` attached as one more
/// variation subtree of its last node (when the line is non-empty;
/// an empty line is left unchanged and the variation is dropped).
pub open spec fn line_attaches(
    old_line: Seq<GameNode>,
    new_line: Seq<GameNode>,
    popped: Vec<GameNode>,
) -> bool {
    if old_line.len() == 0 {
        new_line == old_line
    } else {
        &&& new_line.len() == old_line.len()
        &&& (forall|i: int| 0 <= i < old_line.len() - 1 ==> new_line[i] == old_line[i])
        &&& {
            let on = old_line.last();
            let nn = new_line.last();
            &&& nn.element == on.element
            &&& nn.parent == on.parent
            &&& nn.move_number == on.move_number
            &&& nn.variations@.len() == on.variations@.len() + 1
            &&& nn.variations@.take(on.variations@.len() as int) == on.variations@
            &&& nn.variations@.last().main_line == popped
            &&& nn.variations@.last().current_depth == 0
            &&& nn.variations@.last().variation_stack@.len() == 0
        }
    }
}

impl VariationTree {
    /// An empty tree: no moves, no open variations.
    pub fn new() -> (r: Self)
        ensures
            r.main_line@.len() == 0,
            r.current_depth == 0,
            r.variation_stack@.len() == 0,
    {
        VariationTree { main_line: Vec::new(), current_depth: 0, variation_stack: Vec::new() }
    }

    /// Whether construction currently stands inside a variation.
    pub fn is_in_variation(&self) -> (r: bool)
        ensures
            r == (self.current_depth > 0),
    {
        self.current_depth > 0
    }

    /// Append an element to the line that the current depth designates:
    /// the main line at depth zero, else the innermost open variation
    /// (nothing happens in the impossible state of a positive depth
    /// with no open variation).
    pub fn add_move(&mut self, element: GameElement, move_number: Option<usize>)
        ensures
            final (self).current_depth == old(self).current_depth,
            old(self).current_depth == 0 ==> {
                &&& final (self).main_line@.len() == old(self).main_line@.len() + 1
                &&& final (self).main_line@.take(old(self).main_line@.len() as int) == old(
                    self,
                ).main_line@
                &&& node_is(final (self).main_line@.last(), element, move_number)
                &&& final (self).variation_stack@ == old(self).variation_stack@
            },
            old(self).current_depth > 0 && old(self).variation_stack@.len() > 0 ==> {
                &&& final (self).main_line@ == old(self).main_line@
                &&& final (self).variation_stack@.len() == old(self).variation_stack@.len()
                &&& (forall|i: int|
                    0 <= i < old(self).variation_stack@.len() - 1 ==> final (
                    self).variation_stack@[i] == old(self).variation_stack@[i])
                &&& final (self).variation_stack@.last()@.len() == old(
                    self,
                ).variation_stack@.last()@.len() + 1
                &&& final (self).variation_stack@.last()@.take(
                    old(self).variation_stack@.last()@.len() as int,
                ) == old(self).variation_stack@.last()@
                &&& node_is(final (self).variation_stack@.last()@.last(), element, move_number)
            },
            old(self).current_depth > 0 && old(self).variation_stack@.len() == 0 ==> final (
            self).main_line@ == old(self).main_line@ && final (self).variation_stack@ == old(
                self,
            ).variation_stack@,
    {
        let node = GameNode { element, variations: Vec::new(), parent: None, move_number };

        if self.current_depth == 0 {
            self.main_line.push(node);
            proof {
                assert(self.main_line@.take(old(self).main_line@.len() as int) =~= old(
                    self,
                ).main_line@);
            }
        } else {
            if self.variation_stack.len() > 0 {
                let mut current_variation = match self.variation_stack.pop() {
                    Some(v) => v,
                    None => Vec::new(),
                };
                current_variation.push(node);
                self.variation_stack.push(current_variation);
                proof {
                    assert(self.variation_stack@.last()@.take(
                        old(self).variation_stack@.last()@.len() as int,
                    ) =~= old(self).variation_stack@.last()@);
                    assert(forall|i: int|
                        0 <= i < old(self).variation_stack@.len() - 1 ==> self.variation_stack@[i]
                            == old(self).variation_stack@[i]);
                }
            }
        }
    }

    /// Open a new variation: push an empty node list and deepen by one.
    pub fn start_variation(&mut self) -> (r: Result<(), ParseError>)
        requires
            old(self).current_depth < usize::MAX,
        ensures
            r == Ok::<(), ParseError>(()),
            final (self).current_depth == old(self).current_depth + 1,
            final (self).main_line@ == old(self).main_line@,
            final (self).variation_stack@.len() == old(self).variation_stack@.len() + 1,
            final (self).variation_stack@.take(old(self).variation_stack@.len() as int) == old(
                self,
            ).variation_stack@,
            final (self).variation_stack@.last()@.len() == 0,
    {
        self.current_depth = self.current_depth + 1;
        self.variation_stack.push(Vec::new());
        proof {
            assert(self.variation_stack@.take(old(self).variation_stack@.len() as int) =~= old(
                self,
            ).variation_stack@);
        }
        Ok(())
    }

    /// Close the innermost variation: pop its node list, wrap it as a
    /// subtree, and attach it to the last node of the line that
    /// becomes current (the main line when the depth returns to zero,
    /// else the enclosing variation).  Closing with no open variation
    /// is an error and changes nothing.
    pub fn end_variation(&mut self) -> (r: Result<(), ParseError>)
        ensures
            old(self).current_depth == 0 ==> r == Err::<(), ParseError>(ParseError::NotInVariation)
                && *final (self) == *old(self),
            old(self).current_depth > 0 ==> {
                &&& r == Ok::<(), ParseError>(())
                &&& final (self).current_depth == old(self).current_depth - 1
                &&& (old(self).variation_stack@.len() == 0 ==> final (self).main_line@ == old(
                    self,
                ).main_line@ && final (self).variation_stack@ == old(self).variation_stack@)
                &&& (old(self).variation_stack@.len() > 0 && old(self).current_depth == 1 ==> {
                    &&& final (self).variation_stack@ == old(self).variation_stack@.drop_last()
                    &&& line_attaches(
                        old(self).main_line@,
                        final (self).main_line@,
                        old(self).variation_stack@.last(),
                    )
                })
                &&& (old(self).variation_stack@.len() > 0 && old(self).current_depth > 1 ==> {
                    &&& final (self).main_line@ == old(self).main_line@
                    &&& {
                        let rem = old(self).variation_stack@.drop_last();
                        if rem.len() == 0 {
                            final (self).variation_stack@ == rem
                        } else {
                            &&& final (self).variation_stack@.len() == rem.len()
                            &&& (forall|i: int|
                                0 <= i < rem.len() - 1 ==> final (self).variation_stack@[i]
                                    == rem[i])
                            &&& line_attaches(
                                rem.last()@,
                                final (self).variation_stack@.last()@,
                                old(self).variation_stack@.last(),
                            )
                        }
                    }
                })
            },
    {
        if self.current_depth == 0 {
            return Err(ParseError::NotInVariation);
        }

        if let Some(variation_moves) = self.variation_stack.pop() {
            let variation = VariationTree {
                main_line: variation_moves,
                current_depth: 0,
                variation_stack: Vec::new(),
            };

            if self.current_depth == 1 {
                // Attach to the last move of the main line.
                if let Some(mut last_move) = self.main_line.pop() {
                    let ghost old_last = last_move;
                    last_move.variations.push(variation);
                    self.main_line.push(last_move);
                    proof {
                        assert(self.main_line@.last().variations@.take(
                            old_last.variations@.len() as int,
                        ) =~= old_last.variations@);
                        assert(line_attaches(
                            old(self).main_line@,
                            self.main_line@,
                            old(self).variation_stack@.last(),
                        ));
                    }
                }
            } else {
                // Attach to the last move of the enclosing variation.
                if let Some(mut parent_variation) = self.variation_stack.pop() {
                    let ghost parent0 = parent_variation@;
                    if let Some(mut last_move) = parent_variation.pop() {
                        let ghost old_last = last_move;
                        last_move.variations.push(variation);
                        parent_variation.push(last_move);
                        proof {
                            assert(parent_variation@.last().variations@.take(
                                old_last.variations@.len() as int,
                            ) =~= old_last.variations@);
                            assert(line_attaches(
                                parent0,
                                parent_variation@,
                                old(self).variation_stack@.last(),
                            ));
                        }
                    }
                    self.variation_stack.push(parent_variation);
                    proof {
                        let rem = old(self).variation_stack@.drop_last();
                        assert(self.variation_stack@.len() == rem.len());
                        assert(forall|i: int|
                            0 <= i < rem.len() - 1 ==> self.variation_stack@[i] == rem[i]);
                    }
                }
            }
        }

        proof {
            if old(self).variation_stack@.len() == 0 {
                assert(self.main_line@ == old(self).main_line@);
                assert(self.variation_stack@ == old(self).variation_stack@);
            }
            if old(self).variation_stack@.len() > 0 && old(self).current_depth == 1 {
                assert(self.variation_stack@ =~= old(self).variation_stack@.drop_last());
                assert(line_attaches(
                    old(self).main_line@,
                    self.main_line@,
                    old(self).variation_stack@.last(),
                ));
            }
            if old(self).variation_stack@.len() > 0 && old(self).current_depth > 1 {
                assert(self.main_line@ == old(self).main_line@);
                let rem = old(self).variation_stack@.drop_last();
                if rem.len() == 0 {
                    assert(self.variation_stack@ =~= rem);
                } else {
                    assert(self.variation_stack@.len() == rem.len());
                    assert(forall|i: int|
                        0 <= i < rem.len() - 1 ==> self.variation_stack@[i] == rem[i]);
                    assert(line_attaches(
                        rem.last()@,
                        self.variation_stack@.last()@,
                        old(self).variation_stack@.last(),
                    ));
                }
            }
        }
        self.current_depth = self.current_depth - 1;
        Ok(())
    }
}

} // verus!

verus! {

/// Whether the rendered text so far needs a separating space: it is
/// non-empty and does not already end with one.
fn needs_separator(s: &String) -> (r: bool)
    ensures
        r == (s@.len() > 0 && s@.last() != ' '),
{
    let n = s.as_str().unicode_len();
    if n == 0 {
        false
    } else {
        s.as_str().get_char(n - 1) != ' '
    }
}

impl VariationTree {
    /// Render the tree in PGN-like shape: move numbers, a placeholder
    /// for each move, and parenthesized variations attached to the
    /// move they branch from.
    pub fn to_pgn_with_variations(&self) -> String {
        let mut result = String::new();
        self.append_moves_to_pgn(self.main_line.as_slice(), &mut result, 1, false);
        result
    }

    /// Append one line's rendering: numbered move placeholders, each
    /// followed by its variations in parentheses.
    fn append_moves_to_pgn(
        &self,
        moves: &[GameNode],
        result: &mut String,
        move_num: usize,
        in_variation: bool,
    )
        decreases moves@,
    {
        let mut move_num = move_num;
        let n = moves.len();
        let mut i: usize = 0;
        while i < n
            invariant
                i <= n,
                n == moves@.len(),
            decreases n - i,
        {
            let node = &moves[i];
            if let GameElement::Move { .. } = &node.element {
                // Number white moves, and the first move of a variation.
                if move_num % 2 == 1 || (in_variation && i == 0) {
                    if needs_separator(result) {
                        crate::strutil::push_char(result, ' ');
                    }
                    append_decimal(result, ((move_num.wrapping_add(1)) / 2) as u64);
                    crate::strutil::push_char(result, '.');
                    if move_num % 2 == 0 {
                        result.append("..");
                    }
                }

                crate::strutil::push_char(result, ' ');
                result.append("move");

                let vn = node.variations.len();
                let mut j: usize = 0;
                while j < vn
                    invariant
                        j <= vn,
                        i < n,
                        n == moves@.len(),
                        *node == moves@[i as int],
                        vn == moves@[i as int].variations@.len(),
                    decreases vn - j,
                {
                    let variation = &node.variations[j];
                    result.append(" (");
                    proof {
                        let gn = moves@[i as int];
                        let vt = gn.variations@[j as int];
                        assert(*variation == vt);
                        assert(decreases_to!(moves@ => gn));
                        assert(decreases_to!(gn => gn.variations));
                        assert(decreases_to!(gn.variations => gn.variations@));
                        assert(decreases_to!(gn.variations@ => vt));
                        assert(decreases_to!(vt => vt.main_line));
                        assert(decreases_to!(vt.main_line => vt.main_line@));
                    }
                    self.append_moves_to_pgn(
                        variation.main_line.as_slice(),
                        result,
                        move_num,
                        true,
                    );
                    crate::strutil::push_char(result, ')');
                    j = j + 1;
                }

                move_num = move_num.wrapping_add(1);
            }
            i = i + 1;
        }
    }
}

} // verus!
