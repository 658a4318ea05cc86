//! TGM-style piece randomizer: a four-piece history (initially four Z),
//! up to four draws to avoid a piece in the history, and a first piece that
//! is never S, Z or O.

use vstd::prelude::*;
use crate::data::{kind_at, PieceKind};
use crate::rng::{gen_below, random_seed, seeded_generator, seeded_rng};

verus! {

/// The randomizer's state apart from its generator.
pub struct RandomizerView {
    pub history: Seq<PieceKind>,
    pub is_first: bool,
}

/// Kinds the very first piece may take.
pub open spec fn first_piece_kind(k: PieceKind) -> bool {
    k == PieceKind::I || k == PieceKind::T || k == PieceKind::J || k == PieceKind::L
}

/// The first piece chosen by the generator's draw `n` from `0..4`: I, T, J,
/// and L for every other value.
pub open spec fn first_piece_at(n: int) -> PieceKind {
    if n == 0 {
        PieceKind::I
    } else if n == 1 {
        PieceKind::T
    } else if n == 2 {
        PieceKind::J
    } else {
        PieceKind::L
    }
}

/// The first piece that the generator's draw `n` selects.
pub fn first_piece_of_draw(n: i32) -> (k: PieceKind)
    ensures
        k == first_piece_at(n as int),
{
    match n {
        0 => PieceKind::I,
        1 => PieceKind::T,
        2 => PieceKind::J,
        _ => PieceKind::L,
    }
}

/// The piece dealt from the candidates `draws` from position `i` on: the
/// first of the first four that is not in the history, else the fourth
/// (the last, when fewer were drawn).
pub open spec fn pick_from(history: Seq<PieceKind>, draws: Seq<PieceKind>, i: int) -> PieceKind
    decreases 4 - i,
{
    if i >= 3 || i >= draws.len() - 1 || !history.contains(draws[i]) {
        draws[i]
    } else {
        pick_from(history, draws, i + 1)
    }
}

/// The piece one pick deals from the candidates `draws`, drawn in turn.
pub open spec fn spec_pick(history: Seq<PieceKind>, draws: Seq<PieceKind>) -> PieceKind {
    pick_from(history, draws, 0)
}

/// The piece dealt from the candidates `draws`: the first of at most four
/// that is not in `history`, else the fourth (the last, when fewer were
/// drawn).
pub fn pick(history: &[PieceKind; 4], draws: &Vec<PieceKind>) -> (k: PieceKind)
    requires
        draws.len() >= 1,
    ensures
        k == spec_pick(history@, draws@),
{
    let mut i: usize = 0;
    while i < 3 && i + 1 < draws.len() && history_has(history, draws[i])
        invariant
            i <= 3,
            i < draws.len(),
            pick_from(history@, draws@, i as int) == spec_pick(history@, draws@),
        decreases 3 - i,
    {
        i = i + 1;
    }
    draws[i]
}

/// Whether `piece` is in `history`.
fn history_has(history: &[PieceKind; 4], piece: PieceKind) -> (r: bool)
    ensures
        r == history@.contains(piece),
{
    let mut i: usize = 0;
    while i < 4
        invariant
            i <= 4,
            forall|j: int| 0 <= j < i ==> history@[j] != piece,
        decreases 4 - i,
    {
        if history[i] == piece {
            assert(history@[i as int] == piece);
            return true;
        }
        i = i + 1;
    }
    false
}

/// For legally drawn candidates, the piece picked is the last one drawn.
proof fn lemma_pick_is_last_draw(v: RandomizerView, draws: Seq<PieceKind>, i: int)
    requires
        legal_draws(v, draws),
        0 <= i < draws.len(),
    ensures
        pick_from(v.history, draws, i) == draws.last(),
    decreases 4 - i,
{
    if !(i >= 3 || i >= draws.len() - 1) {
        assert(v.history.contains(draws[i]));
        lemma_pick_is_last_draw(v, draws, i + 1);
    }
}

/// `draws` is a legal sequence of candidates for one pick from state `v`:
/// one to four candidates, every one but the last already in the history,
/// the last one outside it unless all four draws were used, and all of them
/// first-piece kinds while no piece has been dealt yet.
pub open spec fn legal_draws(v: RandomizerView, draws: Seq<PieceKind>) -> bool {
    &&& 1 <= draws.len() <= 4
    &&& forall|i: int| 0 <= i < draws.len() - 1 ==> v.history.contains(#[trigger] draws[i])
    &&& draws.len() < 4 ==> !v.history.contains(draws.last())
    &&& v.is_first ==> forall|i: int| 0 <= i < draws.len() ==> first_piece_kind(#[trigger] draws[i])
}

/// `piece` is a possible result of one pick from state `v`.
pub open spec fn legal_pick(v: RandomizerView, piece: PieceKind) -> bool {
    exists|draws: Seq<PieceKind>| legal_draws(v, draws) && draws.last() == piece
}

/// The state after dealing `piece`: it enters the history at the back, the
/// oldest entry leaves, and the first piece has been dealt.
pub open spec fn after_pick(v: RandomizerView, piece: PieceKind) -> RandomizerView {
    RandomizerView { history: v.history.drop_first().push(piece), is_first: false }
}

pub struct Randomizer {
    history: [PieceKind; 4],
    is_first: bool,
    rng: rand::rngs::StdRng,
    /// The candidates the last pick drew, in order.
    drawn: Ghost<Seq<PieceKind>>,
    /// The seed the generator was built from.
    seed: Ghost<u64>,
}

impl View for Randomizer {
    type V = RandomizerView;

    closed spec fn view(&self) -> RandomizerView {
        RandomizerView { history: self.history@, is_first: self.is_first }
    }
}

impl Randomizer {
    /// The generator the randomizer draws from.
    pub closed spec fn generator(&self) -> rand::rngs::StdRng {
        self.rng
    }

    /// The seed the generator was built from; the generator has advanced
    /// by the draws made since.
    pub closed spec fn seed(&self) -> u64 {
        self.seed@
    }

    /// The candidates that the last pick drew from the generator, in order.
    pub closed spec fn last_draws(&self) -> Seq<PieceKind> {
        self.drawn@
    }

    /// A randomizer seeded from the thread-local generator.
    pub fn new() -> (r: Randomizer)
        ensures
            r@.history == seq![PieceKind::Z, PieceKind::Z, PieceKind::Z, PieceKind::Z],
            r@.is_first,
    {
        Randomizer::with_seed(random_seed())
    }

    /// A randomizer whose generator is seeded with `seed`; history four Z,
    /// first piece not dealt yet.
    pub fn with_seed(seed: u64) -> (r: Randomizer)
        ensures
            r@.history == seq![PieceKind::Z, PieceKind::Z, PieceKind::Z, PieceKind::Z],
            r@.is_first,
            r.generator() == seeded_generator(seed),
            r.seed() == seed,
    {
        let r = Randomizer {
            history: [PieceKind::Z, PieceKind::Z, PieceKind::Z, PieceKind::Z],
            is_first: true,
            rng: seeded_rng(seed),
            drawn: Ghost(Seq::empty()),
            seed: Ghost(seed),
        };
        assert(r@.history =~= seq![PieceKind::Z, PieceKind::Z, PieceKind::Z, PieceKind::Z]);
        r
    }

    /// The history has four pieces.
    pub fn history(&self) -> (h: [PieceKind; 4])
        ensures
            h@ == self@.history,
    {
        self.history
    }

    /// Deals the next piece: draws a candidate, and draws again (up to four
    /// draws in all) while the last candidate is in the history; the piece
    /// dealt is `pick` of the history and the candidates drawn, and enters
    /// the history.
    pub fn next(&mut self) -> (piece: PieceKind)
        ensures
            legal_draws(old(self)@, final(self).last_draws()),
            piece == spec_pick(old(self)@.history, final(self).last_draws()),
            legal_pick(old(self)@, piece),
            final(self)@ == after_pick(old(self)@, piece),
            final(self).seed() == old(self).seed(),
    {
        let ghost start = self@;
        let ghost seed0 = self.seed@;
        let mut draws: Vec<PieceKind> = Vec::new();
        let c = self.candidate();
        draws.push(c);
        while draws.len() < 4 && self.history_contains(draws[draws.len() - 1])
            invariant
                1 <= draws.len() <= 4,
                self@ == start,
                self.seed@ == seed0,
                forall|i: int| 0 <= i < draws@.len() - 1 ==> start.history.contains(#[trigger] draws@[i]),
                start.is_first ==> forall|i: int|
                    0 <= i < draws@.len() ==> first_piece_kind(#[trigger] draws@[i]),
            decreases 4 - draws.len(),
        {
            let c = self.candidate();
            draws.push(c);
        }
        assert(legal_draws(start, draws@));
        let piece = pick(&self.history, &draws);
        proof {
            lemma_pick_is_last_draw(start, draws@, 0);
        }
        self.history = [self.history[1], self.history[2], self.history[3], piece];
        self.is_first = false;
        self.drawn = Ghost(draws@);
        assert(self@.history =~= start.history.drop_first().push(piece));
        piece
    }

    /// Whether `piece` is in the history.
    fn history_contains(&self, piece: PieceKind) -> (r: bool)
        ensures
            r == self@.history.contains(piece),
    {
        history_has(&self.history, piece)
    }

    /// One draw: while the first piece is pending, one of I, T, J, L
    /// (generator value 0, 1, 2, other); afterwards any of the seven kinds.
    fn candidate(&mut self) -> (k: PieceKind)
        ensures
            final(self)@ == old(self)@,
            final(self).seed() == old(self).seed(),
            old(self)@.is_first ==> first_piece_kind(k),
            old(self)@.is_first ==> exists|n: int| 0 <= n < 4 && k == first_piece_at(n),
            !old(self)@.is_first ==> exists|i: int| 0 <= i < 7 && k == kind_at(i),
    {
        if self.is_first {
            let n = gen_below(&mut self.rng, 4);
            first_piece_of_draw(n)
        } else {
            PieceKind::random(&mut self.rng)
        }
    }
}

impl Default for Randomizer {
    fn default() -> (r: Randomizer)
        ensures
            r@.history == seq![PieceKind::Z, PieceKind::Z, PieceKind::Z, PieceKind::Z],
            r@.is_first,
    {
        Randomizer::new()
    }
}


/// The first piece of a game is never S, Z or O.
pub proof fn law_first_piece_is_not_s_z_o(v: RandomizerView, piece: PieceKind)
    requires
        v.is_first,
        legal_pick(v, piece),
    ensures
        piece != PieceKind::S && piece != PieceKind::Z && piece != PieceKind::O,
{
    let draws = choose|draws: Seq<PieceKind>| legal_draws(v, draws) && draws.last() == piece;
    assert(first_piece_kind(draws[draws.len() - 1]));
}

/// A dealt piece is outside the history unless all four draws hit it; it
/// then joins the history at the back.
pub proof fn law_pick_avoids_history(v: RandomizerView, piece: PieceKind)
    requires
        legal_pick(v, piece),
        v.history.contains(piece),
    ensures
        exists|draws: Seq<PieceKind>|
            legal_draws(v, draws) && draws.len() == 4 && draws.last() == piece,
        after_pick(v, piece).history.last() == piece,
{
}

} // verus!
