//! Whole-game decoding: drive the element stream through the
//! piece-number resolver, the move decoder and the move applier,
//! building the move list, the notation list and the variation tree.
//!
//! Decoding is a pure function of the game's bytes: the contracts below
//! pin every move and notation string to a spec-level run of the same
//! state machine, so decoding the same bytes twice from two freshly
//! constructed starting positions yields identical results.

use vstd::prelude::*;

use crate::decode::{decode_move_with_position, decode_result_matches, spec_decode_move};
use crate::elements::{
    spec_elements_from, spec_game_parse, ElemModel, GameElement, GameParseState, GameStateModel,
    ParseError, elem_views, parse_pgn_tags,
};
use crate::position::{
    spec_apply_move, spec_starting_piece_at, spec_starting_square_of, CastlingRights,
    ChessPosition, Color, Move, PosModel, PositionError, Square,
};
use crate::vartree::VariationTree;

verus! {

/// A fatal error while decoding a game: a structural parse error, or a
/// main-line move that could not be applied to the position.
#[derive(Debug, Clone, Copy, PartialEq, Eq, Structural)]
pub enum GameError {
    Parse(ParseError),
    Apply(PositionError),
}

/// The starting position's mathematical model.
pub open spec fn spec_starting_model() -> PosModel {
    PosModel {
        board: Seq::new(64, |i: int| spec_starting_piece_at(i)),
        locs: Seq::new(32, |i: int| Some(Square(spec_starting_square_of(i) as u8))),
        castling: CastlingRights::spec_all(),
        ep: None,
        to_move: Color::White,
        half_moves: 0,
        full_moves: 1,
        history: Seq::empty(),
    }
}

/// The views of a sequence of strings.
pub open spec fn string_views(s: Seq<String>) -> Seq<Seq<char>> {
    s.map_values(|x: String| x@)
}

/// One pass over the element stream without variation tracking: every
/// decodable move is applied to the shared position (decode errors are
/// skipped), and the run stops at the end-of-game element.  Yields the
/// applied moves and their notation.
pub open spec fn spec_run_plain(elems: Seq<ElemModel>, i: int, p: PosModel) -> Result<
    (Seq<Move>, Seq<Seq<char>>),
    GameError,
>
    decreases elems.len() - i,
{
    if i < 0 || i >= elems.len() {
        Ok((Seq::empty(), Seq::empty()))
    } else {
        match elems[i] {
            ElemModel::Move { piece_num, move_value, .. } => match spec_decode_move(
                piece_num,
                move_value,
                p,
            ) {
                Ok((m, nt)) => if spec_apply_move(p, m).0 is Ok {
                    match spec_run_plain(elems, i + 1, spec_apply_move(p, m).1) {
                        Ok((ms, ns)) => Ok((seq![m] + ms, seq![nt] + ns)),
                        Err(e) => Err(e),
                    }
                } else {
                    match spec_apply_move(p, m).0 {
                        Err(e) => Err(GameError::Apply(e)),
                        Ok(_) => Ok((Seq::empty(), Seq::empty())),
                    }
                },
                Err(_) => spec_run_plain(elems, i + 1, p),
            },
            ElemModel::GameEnd { .. } => Ok((Seq::empty(), Seq::empty())),
            _ => spec_run_plain(elems, i + 1, p),
        }
    }
}

/// One pass over the element stream with variation tracking: moves at
/// depth zero are applied to the shared position, moves inside a
/// variation are decoded against it but not applied and their notation
/// is parenthesized; closing a variation at depth zero is an error.
pub open spec fn spec_run_tree(elems: Seq<ElemModel>, i: int, p: PosModel, depth: int) -> Result<
    (Seq<Move>, Seq<Seq<char>>),
    GameError,
>
    decreases elems.len() - i,
{
    if i < 0 || i >= elems.len() {
        Ok((Seq::empty(), Seq::empty()))
    } else {
        match elems[i] {
            ElemModel::VariationStart { .. } => spec_run_tree(elems, i + 1, p, depth + 1),
            ElemModel::VariationEnd { .. } => if depth == 0 {
                Err(GameError::Parse(ParseError::NotInVariation))
            } else {
                spec_run_tree(elems, i + 1, p, depth - 1)
            },
            ElemModel::Move { piece_num, move_value, .. } => match spec_decode_move(
                piece_num,
                move_value,
                p,
            ) {
                Ok((m, nt)) => if depth == 0 {
                    if spec_apply_move(p, m).0 is Ok {
                        match spec_run_tree(elems, i + 1, spec_apply_move(p, m).1, depth) {
                            Ok((ms, ns)) => Ok((seq![m] + ms, seq![nt] + ns)),
                            Err(e) => Err(e),
                        }
                    } else {
                        match spec_apply_move(p, m).0 {
                            Err(e) => Err(GameError::Apply(e)),
                            Ok(_) => Ok((Seq::empty(), Seq::empty())),
                        }
                    }
                } else {
                    match spec_run_tree(elems, i + 1, p, depth) {
                        Ok((ms, ns)) => Ok((ms, seq![seq!['('] + nt + seq![')']] + ns)),
                        Err(e) => Err(e),
                    }
                },
                Err(_) => spec_run_tree(elems, i + 1, p, depth),
            },
            ElemModel::GameEnd { .. } => Ok((Seq::empty(), Seq::empty())),
            _ => spec_run_tree(elems, i + 1, p, depth),
        }
    }
}

/// Every move element a tokenization yields carries nibble-sized piece
/// and value fields.
pub proof fn lemma_elements_nibbles(data: Seq<u8>, pos: int)
    ensures
        match spec_elements_from(data, pos) {
            Ok((elems, end)) => forall|j: int|
                0 <= j < elems.len() ==> match #[trigger] elems[j] {
                    ElemModel::Move { piece_num, move_value, .. } => piece_num < 16 && move_value
                        < 16,
                    _ => true,
                },
            Err(_) => true,
        },
    decreases data.len() - pos,
{
    if 0 <= pos < data.len() {
        let b = data[pos];
        assert(b >> 4u8 < 16 && b & 0x0F < 16) by (bit_vector);
        if b == 11 {
            if pos + 1 < data.len() {
                lemma_elements_nibbles(data, pos + 2);
            }
        } else if b == 12 {
            crate::elements::lemma_find_zero_bounds(data, pos + 1);
            let z = crate::elements::spec_find_zero(data, pos + 1);
            if z < data.len() {
                lemma_elements_nibbles(data, z + 1);
            }
        } else if b == 13 || b == 14 {
            lemma_elements_nibbles(data, pos + 1);
        } else if b == 15 {
        } else {
            match crate::elements::spec_parse_multi(data, pos, b >> 4u8, b & 0x0F) {
                Ok((c, bytes)) => {
                    let step = if c < 1 {
                        1int
                    } else {
                        c
                    };
                    lemma_elements_nibbles(data, pos + step);
                },
                Err(_) => {},
            }
        }
    }
}

} // verus!

verus! {

/// Decode one game without variation tracking: every decodable move is
/// applied to the shared position, decode errors are skipped, and the
/// run stops at the end-of-game element.  The move and notation lists
/// are exactly `spec_run_plain` over the tokenized elements, so the
/// result is a pure function of the game's bytes.
#[verifier::rlimit(100)]
pub fn parse_game_with_position_tracking(game_data: &[u8], game_number: usize) -> (r: Result<
    (Vec<Move>, Vec<String>),
    GameError,
>)
    ensures
        match (r, spec_game_parse(game_data@)) {
            (Err(ge), Err(pe)) => ge == GameError::Parse(pe),
            (rr, Ok(st)) => match (rr, spec_run_plain(st.elements, 0, spec_starting_model())) {
                (Ok((ms, ns)), Ok((sms, sns))) => ms@ == sms && string_views(ns@) == sns,
                (Err(e1), Err(e2)) => e1 == e2,
                _ => false,
            },
            _ => false,
        },
{
    let mut position = ChessPosition::starting_position();
    proof {
        assert(position@.board =~= spec_starting_model().board);
        assert(position@.locs =~= spec_starting_model().locs);
        assert(position@.history =~= spec_starting_model().history);
        assert(position@ == spec_starting_model());
    }

    let game_state = match parse_pgn_tags(game_data) {
        Ok(s) => s,
        Err(e) => {
            return Err(GameError::Parse(e));
        },
    };
    let ghost elems_s = elem_views(game_state.elements@);
    proof {
        lemma_elements_nibbles(game_data@, game_state@.moves_start_offset);
    }

    let mut moves: Vec<Move> = Vec::new();
    let mut algebraic_notation: Vec<String> = Vec::new();

    let n = game_state.elements.len();
    let mut i: usize = 0;
    let mut done: bool = false;

    while !done && i < n
        invariant
            i <= n,
            n == game_state.elements@.len(),
            elems_s == elem_views(game_state.elements@),
            elems_s == game_state@.elements,
            spec_game_parse(game_data@) == Ok::<GameStateModel, ParseError>(game_state@),
            position.bounds_ok(),
            forall|j: int|
                0 <= j < elems_s.len() ==> match #[trigger] elems_s[j] {
                    ElemModel::Move { piece_num, move_value, .. } => piece_num < 16 && move_value
                        < 16,
                    _ => true,
                },
            !done ==> spec_run_plain(elems_s, 0, spec_starting_model()) == (match spec_run_plain(
                elems_s,
                i as int,
                position@,
            ) {
                Ok((ms, ns)) => Ok::<(Seq<Move>, Seq<Seq<char>>), GameError>(
                    (moves@ + ms, string_views(algebraic_notation@) + ns),
                ),
                Err(e) => Err::<(Seq<Move>, Seq<Seq<char>>), GameError>(e),
            }),
            done ==> spec_run_plain(elems_s, 0, spec_starting_model()) == Ok::<
                (Seq<Move>, Seq<Seq<char>>),
                GameError,
            >((moves@, string_views(algebraic_notation@))),
        decreases (if done {
            0int
        } else {
            n - i + 1
        }),
    {
        let ghost pos_pre = position@;
        let ghost moves0 = moves@;
        let ghost nota0 = algebraic_notation@;
        let element = &game_state.elements[i];
        proof {
            assert(elems_s[i as int] == game_state.elements@[i as int]@);
        }

        match element {
            GameElement::Move { piece_num, move_value, raw_byte, .. } => {
                match decode_move_with_position(piece_num, move_value, raw_byte, &position) {
                    Ok((chess_move, notation)) => {
                        match position.apply_move(&chess_move) {
                            Ok(()) => {
                                moves.push(chess_move);
                                algebraic_notation.push(notation);
                                proof {
                                    assert(string_views(algebraic_notation@) =~= string_views(
                                        nota0,
                                    ).push(algebraic_notation@.last()@));
                                    match spec_run_plain(elems_s, i as int + 1, position@) {
                                        Ok((ms, ns)) => {
                                            assert(moves@ + ms =~= moves0 + (seq![chess_move]
                                                + ms));
                                            assert(string_views(algebraic_notation@) + ns
                                                =~= string_views(nota0) + (seq![
                                                algebraic_notation@.last()@,
                                            ] + ns));
                                        },
                                        Err(_) => {},
                                    }
                                }
                            },
                            Err(e) => {
                                return Err(GameError::Apply(e));
                            },
                        }
                    },
                    Err(_) => {
                        // Decode error: skip the move and go on.
                    },
                }
            },
            GameElement::GameEnd { .. } => {
                done = true;
            },
            _ => {
                // Annotations, comments and variation markers are not
                // position-relevant in this pass.
            },
        }
        if !done {
            i = i + 1;
        }
    }

    Ok((moves, algebraic_notation))
}

} // verus!

verus! {

/// Decode one game with variation tracking: elements are organized
/// into a variation tree; only main-line moves are applied to the
/// shared position, while variation moves are decoded against it and
/// recorded with parenthesized notation.  The move and notation lists
/// are exactly `spec_run_tree` over the tokenized elements, so the
/// result is a pure function of the game's bytes.
#[verifier::rlimit(100)]
pub fn parse_game_with_variation_trees(game_data: &[u8], game_number: usize) -> (r: Result<
    (VariationTree, Vec<Move>, Vec<String>),
    GameError,
>)
    ensures
        match (r, spec_game_parse(game_data@)) {
            (Err(ge), Err(pe)) => ge == GameError::Parse(pe),
            (rr, Ok(st)) => match (rr, spec_run_tree(st.elements, 0, spec_starting_model(), 0)) {
                (Ok((_, ms, ns)), Ok((sms, sns))) => ms@ == sms && string_views(ns@) == sns,
                (Err(e1), Err(e2)) => e1 == e2,
                _ => false,
            },
            _ => false,
        },
{
    let mut position = ChessPosition::starting_position();
    proof {
        assert(position@.board =~= spec_starting_model().board);
        assert(position@.locs =~= spec_starting_model().locs);
        assert(position@.history =~= spec_starting_model().history);
        assert(position@ == spec_starting_model());
    }
    let mut variation_tree = VariationTree::new();
    let mut moves: Vec<Move> = Vec::new();
    let mut algebraic_notation: Vec<String> = Vec::new();

    let game_state = match parse_pgn_tags(game_data) {
        Ok(s) => s,
        Err(e) => {
            return Err(GameError::Parse(e));
        },
    };
    let ghost elems_s = elem_views(game_state.elements@);
    proof {
        lemma_elements_nibbles(game_data@, game_state@.moves_start_offset);
    }

    let mut move_count: usize = 0;
    let mut in_variation: bool = false;

    let n = game_state.elements.len();
    let mut i: usize = 0;
    let mut done: bool = false;

    while !done && i < n
        invariant
            i <= n,
            n == game_state.elements@.len(),
            elems_s == elem_views(game_state.elements@),
            elems_s == game_state@.elements,
            spec_game_parse(game_data@) == Ok::<GameStateModel, ParseError>(game_state@),
            position.bounds_ok(),
            move_count <= i,
            variation_tree.current_depth <= i,
            in_variation == (variation_tree.current_depth > 0),
            forall|j: int|
                0 <= j < elems_s.len() ==> match #[trigger] elems_s[j] {
                    ElemModel::Move { piece_num, move_value, .. } => piece_num < 16 && move_value
                        < 16,
                    _ => true,
                },
            !done ==> spec_run_tree(elems_s, 0, spec_starting_model(), 0) == (match spec_run_tree(
                elems_s,
                i as int,
                position@,
                variation_tree.current_depth as int,
            ) {
                Ok((ms, ns)) => Ok::<(Seq<Move>, Seq<Seq<char>>), GameError>(
                    (moves@ + ms, string_views(algebraic_notation@) + ns),
                ),
                Err(e) => Err::<(Seq<Move>, Seq<Seq<char>>), GameError>(e),
            }),
            done ==> spec_run_tree(elems_s, 0, spec_starting_model(), 0) == Ok::<
                (Seq<Move>, Seq<Seq<char>>),
                GameError,
            >((moves@, string_views(algebraic_notation@))),
        decreases (if done {
            0int
        } else {
            n - i + 1
        }),
    {
        let ghost moves0 = moves@;
        let ghost nota0 = algebraic_notation@;
        let element = &game_state.elements[i];
        proof {
            assert(elems_s[i as int] == game_state.elements@[i as int]@);
        }

        match element {
            GameElement::VariationStart { .. } => {
                let _ = variation_tree.start_variation();
                in_variation = true;
            },
            GameElement::VariationEnd { .. } => {
                match variation_tree.end_variation() {
                    Ok(()) => {},
                    Err(e) => {
                        proof {
                            assert(variation_tree.current_depth == 0);
                            assert(e == ParseError::NotInVariation);
                            assert(spec_run_tree(elems_s, i as int, position@, 0) == Err::<
                                (Seq<Move>, Seq<Seq<char>>),
                                GameError,
                            >(GameError::Parse(ParseError::NotInVariation)));
                        }
                        return Err(GameError::Parse(e));
                    },
                }
                in_variation = variation_tree.is_in_variation();
            },
            GameElement::Move { piece_num, move_value, raw_byte, .. } => {
                match decode_move_with_position(piece_num, move_value, raw_byte, &position) {
                    Ok((chess_move, notation)) => {
                        move_count = move_count + 1;
                        variation_tree.add_move(element.clone(), Some(move_count));

                        if !in_variation {
                            match position.apply_move(&chess_move) {
                                Ok(()) => {
                                    moves.push(chess_move);
                                    algebraic_notation.push(notation);
                                    proof {
                                        assert(string_views(algebraic_notation@) =~= string_views(
                                            nota0,
                                        ).push(algebraic_notation@.last()@));
                                        match spec_run_tree(
                                            elems_s,
                                            i as int + 1,
                                            position@,
                                            variation_tree.current_depth as int,
                                        ) {
                                            Ok((ms, ns)) => {
                                                assert(moves@ + ms =~= moves0 + (seq![chess_move]
                                                    + ms));
                                                assert(string_views(algebraic_notation@) + ns
                                                    =~= string_views(nota0) + (seq![
                                                    algebraic_notation@.last()@,
                                                ] + ns));
                                            },
                                            Err(_) => {},
                                        }
                                    }
                                },
                                Err(e) => {
                                    return Err(GameError::Apply(e));
                                },
                            }
                        } else {
                            // A variation move: record its notation in
                            // parentheses without touching the shared
                            // position.
                            let mut wrapped = String::new();
                            crate::strutil::push_char(&mut wrapped, '(');
                            wrapped.append(notation.as_str());
                            crate::strutil::push_char(&mut wrapped, ')');
                            algebraic_notation.push(wrapped);
                            proof {
                                assert(string_views(algebraic_notation@) =~= string_views(
                                    nota0,
                                ).push(algebraic_notation@.last()@));
                                assert(algebraic_notation@.last()@ =~= seq!['('] + notation@
                                    + seq![')']);
                                match spec_run_tree(
                                    elems_s,
                                    i as int + 1,
                                    position@,
                                    variation_tree.current_depth as int,
                                ) {
                                    Ok((ms, ns)) => {
                                        assert(string_views(algebraic_notation@) + ns
                                            =~= string_views(nota0) + (seq![
                                            algebraic_notation@.last()@,
                                        ] + ns));
                                    },
                                    Err(_) => {},
                                }
                            }
                        }
                    },
                    Err(_) => {
                        // Decode error: keep the element in the tree
                        // and go on with the next one.
                        move_count = move_count + 1;
                        variation_tree.add_move(element.clone(), Some(move_count));
                    },
                }
            },
            GameElement::Comment { .. } => {
                variation_tree.add_move(element.clone(), None);
            },
            GameElement::Nag { .. } => {
                variation_tree.add_move(element.clone(), None);
            },
            GameElement::GameEnd { .. } => {
                done = true;
            },
        }
        if !done {
            i = i + 1;
        }
    }

    Ok((variation_tree, moves, algebraic_notation))
}

} // verus!
