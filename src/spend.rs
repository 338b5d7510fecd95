use crate::accept::{BranchReveal, NotarizedPayment, SpendBranch};
use crate::atom::lemma_u64_atom_facts;
use crate::bytes::Bytes32;
use crate::clvm::{ser, serialize, serializable, Program, Tree};
use crate::error::PartialOfferError;
use crate::hash::{
    atom_hash, curried_args_tree, curried_tree, curry, hash_bytes32, lemma_curry_hash_matches, pair_hash,
    tree_hash, tree_hash_of, tree_hashes,
};
use crate::info::{
    b32_p, b32_t, cons, cons_t, full_asset_puzzle_hash_spec, inner_puzzle_hash_spec, lineage_p,
    partial_puzzle_hash_spec, two_leaf_root,
    cat_maker_hash_spec, conditions_t, lemma_hint_serializable, lineage_t, nil, nil_t, price_p, price_t, u64_p,
    u64_t, PartialOfferInfo,
};
use crate::offer::PartialOffer;
use crate::puzzles::{
    merkle_leaf_hash, one_of_many_puzzle_hash_of, CAT_PUZZLE_HASH, REVOCATION_LAYER_HASH,
    SETTLEMENT_PAYMENT_HASH,
};
use crate::templates::PuzzleTemplates;
use crate::types::{Coin, CoinSpend, PartialOfferAssetInfo};
use vstd::prelude::*;

verus! {

pub open spec fn list3(a: Tree, b: Tree, c: Tree) -> Tree {
    cons_t(a, cons_t(b, cons_t(c, nil_t())))
}

/// The list of the hashes in `s`.
pub open spec fn hashes_t(s: Seq<Bytes32>) -> Tree
    decreases s.len(),
{
    if s.len() == 0 {
        nil_t()
    } else {
        cons_t(b32_t(s[0]), hashes_t(s.drop_first()))
    }
}

/// The branch selector committed to `root`.
pub open spec fn selector_t(t: PuzzleTemplates, root: Seq<u8>) -> Tree {
    curried_tree(t.one_of_many.tree(), seq![Tree::Atom(root)])
}

/// `inner` wrapped for `asset`: the token layer around it, with the
/// revocation layer (which commits to `inner` by hash) in between for a
/// revocable token.
pub open spec fn full_puzzle_t(t: PuzzleTemplates, asset: PartialOfferAssetInfo, inner: Tree) -> Tree {
    match asset.asset_id {
        None => inner,
        Some(id) => match asset.hidden_puzzle_hash {
            None => curried_tree(t.cat.tree(), seq![Tree::Atom(CAT_PUZZLE_HASH@), b32_t(id), inner]),
            Some(h) => curried_tree(
                t.cat.tree(),
                seq![
                    Tree::Atom(CAT_PUZZLE_HASH@),
                    b32_t(id),
                    curried_tree(
                        t.revocation.tree(),
                        seq![Tree::Atom(REVOCATION_LAYER_HASH@), b32_t(h), Tree::Atom(tree_hash(inner))],
                    ),
                ],
            ),
        },
    }
}

pub open spec fn coin_t(c: Coin) -> Tree {
    list3(b32_t(c.parent_coin_info), b32_t(c.puzzle_hash), u64_t(c.amount))
}

/// The solution of the token layer: the inner solution, the lineage proof,
/// the coin's id and description, the proof of the next coin in the ring
/// (this coin again, as the only spend), and zero subtotal and delta.
pub open spec fn cat_solution_t(inner_solution: Tree, offer: PartialOffer) -> Tree {
    cons_t(
        inner_solution,
        cons_t(
            lineage_t(offer.info.lineage_proof),
            cons_t(
                Tree::Atom(offer.coin.id()),
                cons_t(
                    coin_t(offer.coin),
                    cons_t(
                        list3(b32_t(offer.coin.parent_coin_info), Tree::Atom(offer.lineage_inner_hash()), u64_t(offer.coin.amount)),
                        cons_t(u64_t(0), cons_t(u64_t(0), nil_t())),
                    ),
                ),
            ),
        ),
    )
}

proof fn lemma_serializable_curried(p: Tree, args: Seq<Tree>)
    requires
        serializable(p),
        forall|i: int| 0 <= i < args.len() ==> serializable(#[trigger] args[i]),
    ensures
        serializable(curried_tree(p, args)),
        serializable(curried_args_tree(args)),
    decreases args.len(),
{
    reveal_with_fuel(serializable, 4);
    if args.len() > 0 {
        assert forall|i: int| 0 <= i < args.drop_first().len() implies serializable(#[trigger] args.drop_first()[i]) by {
            assert(args.drop_first()[i] == args[i + 1]);
        }
        lemma_serializable_curried(p, args.drop_first());
        assert(serializable(args[0]));
        assert(serializable(curried_args_tree(args)));
    }
    let env = curried_args_tree(args);
    assert(serializable(env));
    assert(serializable(Tree::Pair(Box::new(env), Box::new(Tree::Atom(seq![])))));
    assert(serializable(Tree::Pair(Box::new(Tree::Atom(seq![1u8])), Box::new(p))));
}

/// Wrapping a script for its asset gives the locking-script hash that
/// `full_asset_puzzle_hash` computes from the script's hash.
pub proof fn lemma_full_puzzle_hash(t: PuzzleTemplates, asset: PartialOfferAssetInfo, inner: Tree)
    requires
        t.wf(),
    ensures
        tree_hash(full_puzzle_t(t, asset, inner)) == full_asset_puzzle_hash_spec(asset, tree_hash(inner)),
{
    if let Some(id) = asset.asset_id {
        let cat_hash = Tree::Atom(CAT_PUZZLE_HASH@);
        match asset.hidden_puzzle_hash {
            None => {
                let args = seq![cat_hash, b32_t(id), inner];
                lemma_curry_hash_matches(t.cat.tree(), args);
                assert(tree_hashes(args) =~= seq![tree_hash(cat_hash), tree_hash(b32_t(id)), tree_hash(inner)]);
            },
            Some(h) => {
                let rev_args = seq![Tree::Atom(REVOCATION_LAYER_HASH@), b32_t(h), Tree::Atom(tree_hash(inner))];
                let rev = curried_tree(t.revocation.tree(), rev_args);
                lemma_curry_hash_matches(t.revocation.tree(), rev_args);
                assert(tree_hashes(rev_args) =~= seq![
                    tree_hash(Tree::Atom(REVOCATION_LAYER_HASH@)), tree_hash(b32_t(h)), tree_hash(Tree::Atom(tree_hash(inner)))]);
                let args = seq![cat_hash, b32_t(id), rev];
                lemma_curry_hash_matches(t.cat.tree(), args);
                assert(tree_hashes(args) =~= seq![tree_hash(cat_hash), tree_hash(b32_t(id)), tree_hash(rev)]);
            },
        }
    }
}

fn list3_p(a: Program, b: Program, c: Program) -> (r: Program)
    ensures
        r.tree() == list3(a.tree(), b.tree(), c.tree()),
        serializable(a.tree()) && serializable(b.tree()) && serializable(c.tree()) ==> serializable(r.tree()),
{
    cons(a, cons(b, cons(c, nil())))
}

fn hashes_p(s: &Vec<Bytes32>) -> (r: Program)
    ensures
        r.tree() == hashes_t(s@),
        serializable(r.tree()),
{
    let mut r = nil();
    let mut i: usize = s.len();
    while i > 0
        invariant
            0 <= i <= s@.len(),
            r.tree() == hashes_t(s@.subrange(i as int, s@.len() as int)),
            serializable(r.tree()),
        decreases i,
    {
        i = i - 1;
        let ghost tail = s@.subrange(i as int, s@.len() as int);
        assert(tail.drop_first() =~= s@.subrange(i + 1, s@.len() as int));
        assert(s@[i as int]@.len() == 32);
        r = cons(b32_p(s[i]), r);
    }
    assert(s@.subrange(0, s@.len() as int) =~= s@);
    r
}

/// The asset-maker puzzle for `asset`, built in full.
pub open spec fn cat_maker_t(t: PuzzleTemplates, asset: PartialOfferAssetInfo) -> Tree {
    match asset.asset_id {
        None => t.xch_maker.tree(),
        Some(id) => match asset.hidden_puzzle_hash {
            None => curried_tree(t.default_maker.tree(), seq![Tree::Atom(CAT_PUZZLE_HASH@), Tree::Atom(atom_hash(id@))]),
            Some(h) => curried_tree(
                t.revocable_maker.tree(),
                seq![
                    cons_t(Tree::Atom(CAT_PUZZLE_HASH@), cons_t(Tree::Atom(REVOCATION_LAYER_HASH@), Tree::Atom(atom_hash(h@)))),
                    Tree::Atom(atom_hash(id@)),
                ],
            ),
        },
    }
}

/// The accept branch built in full: the settlement template curried with the
/// offered asset's maker puzzle, the requested asset's settlement hash, the
/// maker's hash, the condition list and the price.
pub open spec fn partial_puzzle_t(t: PuzzleTemplates, info: PartialOfferInfo) -> Tree {
    curried_tree(
        t.partial.tree(),
        seq![
            cat_maker_t(t, info.offered_asset_info),
            Tree::Atom(full_asset_puzzle_hash_spec(info.requested_asset_info, SETTLEMENT_PAYMENT_HASH@)),
            b32_t(info.maker_puzzle_hash),
            conditions_t(info.expiration, info.required_fee),
            price_t(info.price_data),
        ],
    )
}

/// The built maker puzzle hashes to the maker hash that the core hash commits to.
pub proof fn lemma_cat_maker_hash(t: PuzzleTemplates, asset: PartialOfferAssetInfo)
    requires
        t.wf(),
    ensures
        tree_hash(cat_maker_t(t, asset)) == cat_maker_hash_spec(asset),
{
    if let Some(id) = asset.asset_id {
        match asset.hidden_puzzle_hash {
            None => {
                let args = seq![Tree::Atom(CAT_PUZZLE_HASH@), Tree::Atom(atom_hash(id@))];
                lemma_curry_hash_matches(t.default_maker.tree(), args);
                assert(tree_hashes(args) =~= seq![atom_hash(CAT_PUZZLE_HASH@), atom_hash(atom_hash(id@))]);
            },
            Some(h) => {
                let st = cons_t(Tree::Atom(CAT_PUZZLE_HASH@), cons_t(Tree::Atom(REVOCATION_LAYER_HASH@), Tree::Atom(atom_hash(h@))));
                let args = seq![st, Tree::Atom(atom_hash(id@))];
                lemma_curry_hash_matches(t.revocable_maker.tree(), args);
                reveal_with_fuel(tree_hash, 3);
                assert(tree_hashes(args) =~= seq![
                    pair_hash(atom_hash(CAT_PUZZLE_HASH@), pair_hash(atom_hash(REVOCATION_LAYER_HASH@), atom_hash(atom_hash(h@)))),
                    atom_hash(atom_hash(id@))]);
            },
        }
    }
}

/// Building the accept branch in full gives the core hash.
pub proof fn lemma_partial_puzzle_hash(t: PuzzleTemplates, info: PartialOfferInfo)
    requires
        t.wf(),
    ensures
        tree_hash(partial_puzzle_t(t, info)) == partial_puzzle_hash_spec(info),
{
    let args = seq![
        cat_maker_t(t, info.offered_asset_info),
        Tree::Atom(full_asset_puzzle_hash_spec(info.requested_asset_info, SETTLEMENT_PAYMENT_HASH@)),
        b32_t(info.maker_puzzle_hash),
        conditions_t(info.expiration, info.required_fee),
        price_t(info.price_data),
    ];
    lemma_cat_maker_hash(t, info.offered_asset_info);
    lemma_curry_hash_matches(t.partial.tree(), args);
    assert(tree_hashes(args) =~= seq![
        cat_maker_hash_spec(info.offered_asset_info),
        atom_hash(full_asset_puzzle_hash_spec(info.requested_asset_info, SETTLEMENT_PAYMENT_HASH@)),
        atom_hash(info.maker_puzzle_hash@),
        tree_hash(conditions_t(info.expiration, info.required_fee)),
        tree_hash(price_t(info.price_data)),
    ]);
}

/// The optional payment to the taker: its hash and amount, with no memos.
pub open spec fn create_coin_t(create_coin: Option<(Bytes32, u64)>) -> Tree {
    match create_coin {
        None => nil_t(),
        Some((ph, amount)) => cons_t(b32_t(ph), cons_t(u64_t(amount), nil_t())),
    }
}

/// A coin as the settlement template sees itself: parent, inner hash, amount.
#[derive(Debug, Clone, Copy, PartialEq, Eq)]
pub struct CoinProof {
    pub parent_coin_info: Bytes32,
    pub inner_puzzle_hash: Bytes32,
    pub amount: u64,
}

/// The settlement template's solution: this coin's proof, the amount of the
/// requested asset, the optional payment to the taker (hash and amount), and
/// an empty maker solution.
#[derive(Debug, Clone, Copy, PartialEq, Eq)]
pub struct PartialSolution {
    pub my_data: CoinProof,
    pub other_asset_amount: u64,
    pub create_coin_rest: Option<(Bytes32, u64)>,
}

impl PartialSolution {
    /// The solution as a value: a list of the four fields.
    pub open spec fn tree_spec(&self) -> Tree {
        cons_t(
            list3(b32_t(self.my_data.parent_coin_info), b32_t(self.my_data.inner_puzzle_hash), u64_t(self.my_data.amount)),
            cons_t(u64_t(self.other_asset_amount), cons_t(create_coin_t(self.create_coin_rest), cons_t(nil_t(), nil_t()))),
        )
    }

    pub fn to_program(&self) -> (r: Program)
        ensures
            r.tree() == self.tree_spec(),
            serializable(r.tree()),
    {
        let create = match self.create_coin_rest {
            None => nil(),
            Some((ph, amount)) => cons(b32_p(ph), cons(u64_p(amount), nil())),
        };
        let my_data = list3_p(
            b32_p(self.my_data.parent_coin_info),
            b32_p(self.my_data.inner_puzzle_hash),
            u64_p(self.my_data.amount),
        );
        cons(my_data, cons(u64_p(self.other_asset_amount), cons(create, cons(nil(), nil()))))
    }
}

/// The settlement template's solution for a fill of `offer`.
pub open spec fn partial_solution_t(offer: PartialOffer, other_asset_amount: u64, create_coin: Option<(Bytes32, u64)>) -> Tree {
    cons_t(
        list3(b32_t(offer.coin.parent_coin_info), Tree::Atom(inner_puzzle_hash_spec(offer.info)), u64_t(offer.coin.amount)),
        cons_t(u64_t(other_asset_amount), cons_t(create_coin_t(create_coin), cons_t(nil_t(), nil_t()))),
    )
}

impl PartialOffer {
    /// The script that every spend of the offer coin reveals: the branch
    /// selector over the two-leaf root, wrapped for the offered asset.
    pub open spec fn offer_puzzle(&self, t: PuzzleTemplates) -> Tree {
        full_puzzle_t(
            t,
            self.info.offered_asset_info,
            selector_t(t, two_leaf_root(partial_puzzle_hash_spec(self.info), self.info.maker_puzzle_hash@)),
        )
    }

    /// The solution around `selector_solution`: under the revocation layer's
    /// solution for a revocable token (not the override path) and the token
    /// layer's solution for a token.
    pub open spec fn wrap_solution(&self, t: PuzzleTemplates, selector_solution: Tree) -> Tree {
        let root = two_leaf_root(partial_puzzle_hash_spec(self.info), self.info.maker_puzzle_hash@);
        let layer = match self.info.offered_asset_info.hidden_puzzle_hash {
            Some(_) => list3(nil_t(), selector_t(t, root), selector_solution),
            None => selector_solution,
        };
        match self.info.offered_asset_info.asset_id {
            Some(_) => cat_solution_t(layer, *self),
            None => layer,
        }
    }

    /// The solution of the reclaim spend: the maker leaf's proof (right-hand
    /// side, with the core leaf's hash as sibling) with the maker's own spend.
    pub open spec fn claw_back_solution(&self, t: PuzzleTemplates, inner_puzzle: Tree, inner_solution: Tree) -> Tree {
        let core = partial_puzzle_hash_spec(self.info);
        let proof = cons_t(u64_t(1), cons_t(Tree::Atom(merkle_leaf_hash(core)), nil_t()));
        self.wrap_solution(t, list3(proof, inner_puzzle, inner_solution))
    }

    /// The proof of the core leaf: on the left with the maker leaf's hash as
    /// sibling (when both leaves are equal, the right-hand proof is kept).
    pub open spec fn fill_proof(&self) -> Tree {
        let core = partial_puzzle_hash_spec(self.info);
        let maker = self.info.maker_puzzle_hash@;
        if core != maker {
            cons_t(u64_t(0), cons_t(Tree::Atom(merkle_leaf_hash(maker)), nil_t()))
        } else {
            cons_t(u64_t(1), cons_t(Tree::Atom(merkle_leaf_hash(core)), nil_t()))
        }
    }

    /// The solution of the fill spend: the core leaf's proof, the accept
    /// branch built in full, and its solution.
    pub open spec fn fill_solution(&self, t: PuzzleTemplates, other_asset_amount: u64, create_coin: Option<(Bytes32, u64)>) -> Tree {
        self.wrap_solution(
            t,
            list3(self.fill_proof(), partial_puzzle_t(t, self.info), partial_solution_t(*self, other_asset_amount, create_coin)),
        )
    }

    /// Builds a spend of the offer coin that reveals the selector with the
    /// given selector solution, wrapped for the offered asset.
    fn selector_spend(&self, templates: &PuzzleTemplates, root: Bytes32, selector_solution: Program) -> (r: CoinSpend)
        requires
            templates.wf(),
            root@ == two_leaf_root(partial_puzzle_hash_spec(self.info), self.info.maker_puzzle_hash@),
            serializable(selector_solution.tree()),
        ensures
            r.coin == self.coin,
            r.puzzle_reveal@ == ser(self.offer_puzzle(*templates)),
            r.solution@ == ser(self.wrap_solution(*templates, selector_solution.tree())),
            tree_hash(self.offer_puzzle(*templates))
                == full_asset_puzzle_hash_spec(self.info.offered_asset_info, inner_puzzle_hash_spec(self.info)),
    {
        let mut selector_args: Vec<Program> = Vec::new();
        selector_args.push(b32_p(root));
        let ghost sel_args = seq![Tree::Atom(root@)];
        assert(selector_args@.map_values(|a: Program| a.tree()) =~= sel_args);
        let selector = curry(templates.one_of_many.duplicate(), selector_args);
        proof {
            lemma_curry_hash_matches(templates.one_of_many.tree(), sel_args);
            assert(tree_hashes(sel_args) =~= seq![tree_hash(Tree::Atom(root@))]);
            assert(tree_hash(selector.tree()) == one_of_many_puzzle_hash_of(root@));
            assert(root@.len() == 32);
            lemma_serializable_curried(templates.one_of_many.tree(), sel_args);
        }
        let layer_solution = match self.info.offered_asset_info.hidden_puzzle_hash {
            Some(_) => list3_p(nil(), selector.duplicate(), selector_solution),
            None => selector_solution,
        };
        let puzzle = PartialOfferInfo::full_puzzle(templates, self.info.offered_asset_info, selector);
        let solution = match self.info.offered_asset_info.asset_id {
            Some(_) => self.cat_solution(layer_solution),
            None => layer_solution,
        };
        let puzzle_reveal = serialize(&puzzle);
        let solution_bytes = serialize(&solution);
        CoinSpend::new(self.coin, puzzle_reveal, solution_bytes)
    }

    /// The merkle proof of a revealed leaf as a value.
    fn proof_program(reveal: &BranchReveal) -> (r: Program)
        requires
            reveal.proof.proof@.len() == 1,
        ensures
            r.tree() == cons_t(u64_t(reveal.proof.path as u64), cons_t(Tree::Atom(reveal.proof.proof@[0]@), nil_t())),
            serializable(r.tree()),
    {
        let r = cons(u64_p(reveal.proof.path as u64), hashes_p(&reveal.proof.proof));
        proof {
            let hs = reveal.proof.proof@;
            assert(hs.drop_first() =~= Seq::<Bytes32>::empty());
            assert(hashes_t(hs) == cons_t(b32_t(hs[0]), hashes_t(hs.drop_first())));
            assert(hashes_t(Seq::<Bytes32>::empty()) == nil_t());
        }
        r
    }

    /// The maker's reclaim spend: the offer coin revealing the maker leaf of
    /// the branch selector, with `inner_puzzle` and `inner_solution` as the
    /// maker-authorized spend, wrapped in the asset's layers. The revealed
    /// script hashes to the coin's locking-script hash. Every atom of the
    /// maker's spend must have a length that CLVM's serialization can express.
    pub fn claw_back_spend(
        &self,
        templates: &PuzzleTemplates,
        inner_puzzle: Program,
        inner_solution: Program,
    ) -> (r: Result<CoinSpend, PartialOfferError>)
        requires
            templates.wf(),
            serializable(inner_puzzle.tree()),
            serializable(inner_solution.tree()),
        ensures
            r matches Ok(cs) && cs.coin == self.coin && cs.puzzle_reveal@ == ser(self.offer_puzzle(*templates))
                && cs.solution@ == ser(self.claw_back_solution(*templates, inner_puzzle.tree(), inner_solution.tree()))
                && tree_hash(self.offer_puzzle(*templates))
                    == full_asset_puzzle_hash_spec(self.info.offered_asset_info, inner_puzzle_hash_spec(self.info)),
            self.wf() ==> (r matches Ok(cs) && tree_hash(self.offer_puzzle(*templates)) == self.coin.puzzle_hash@),
    {
        let reveal = match self.claw_back() {
            Ok(b) => b,
            Err(e) => {
                return Err(e);
            },
        };
        let proof_value = Self::proof_program(&reveal);
        let selector_solution = list3_p(proof_value, inner_puzzle, inner_solution);
        Ok(self.selector_spend(templates, reveal.merkle_root, selector_solution))
    }

    /// The asset-maker puzzle of the offered asset, built in full.
    fn cat_maker_puzzle(&self, templates: &PuzzleTemplates) -> (r: Program)
        requires
            templates.wf(),
        ensures
            r.tree() == cat_maker_t(*templates, self.info.offered_asset_info),
            serializable(r.tree()),
    {
        let asset = self.info.offered_asset_info;
        match asset.asset_id {
            None => templates.xch_maker.duplicate(),
            Some(id) => {
                let tail_hash_hash = hash_bytes32(id);
                let cat_hash = b32_p(Bytes32::new(CAT_PUZZLE_HASH));
                match asset.hidden_puzzle_hash {
                    None => {
                        let mut args: Vec<Program> = Vec::new();
                        args.push(cat_hash);
                        args.push(b32_p(tail_hash_hash));
                        let ghost ts = seq![Tree::Atom(CAT_PUZZLE_HASH@), Tree::Atom(atom_hash(id@))];
                        assert(args@.map_values(|a: Program| a.tree()) =~= ts);
                        proof {
                            lemma_serializable_curried(templates.default_maker.tree(), ts);
                        }
                        curry(templates.default_maker.duplicate(), args)
                    },
                    Some(h) => {
                        let hidden_hash_hash = hash_bytes32(h);
                        let st = cons(cat_hash, cons(b32_p(Bytes32::new(REVOCATION_LAYER_HASH)), b32_p(hidden_hash_hash)));
                        let mut args: Vec<Program> = Vec::new();
                        args.push(st);
                        args.push(b32_p(tail_hash_hash));
                        let ghost ts = seq![
                            cons_t(Tree::Atom(CAT_PUZZLE_HASH@), cons_t(Tree::Atom(REVOCATION_LAYER_HASH@), Tree::Atom(atom_hash(h@)))),
                            Tree::Atom(atom_hash(id@)),
                        ];
                        assert(args@.map_values(|a: Program| a.tree()) =~= ts);
                        proof {
                            lemma_serializable_curried(templates.revocable_maker.tree(), ts);
                        }
                        curry(templates.revocable_maker.duplicate(), args)
                    },
                }
            },
        }
    }

    /// The accept branch built in full; it hashes to the core hash that the
    /// hash-only derivation gives.
    pub fn partial_puzzle(&self, templates: &PuzzleTemplates) -> (r: Program)
        requires
            templates.wf(),
        ensures
            r.tree() == partial_puzzle_t(*templates, self.info),
            serializable(r.tree()),
            tree_hash(r.tree()) == partial_puzzle_hash_spec(self.info),
    {
        proof {
            lemma_partial_puzzle_hash(*templates, self.info);
        }
        let maker = self.cat_maker_puzzle(templates);
        let other = PartialOfferInfo::full_asset_puzzle_hash(
            self.info.requested_asset_info,
            Bytes32::new(SETTLEMENT_PAYMENT_HASH),
        );
        let mut args: Vec<Program> = Vec::new();
        args.push(maker);
        args.push(b32_p(other));
        args.push(b32_p(self.info.maker_puzzle_hash));
        args.push(self.info.inner_conditions());
        args.push(price_p(self.info.price_data));
        let ghost ts = seq![
            cat_maker_t(*templates, self.info.offered_asset_info),
            Tree::Atom(full_asset_puzzle_hash_spec(self.info.requested_asset_info, SETTLEMENT_PAYMENT_HASH@)),
            b32_t(self.info.maker_puzzle_hash),
            conditions_t(self.info.expiration, self.info.required_fee),
            price_t(self.info.price_data),
        ];
        assert(args@.map_values(|a: Program| a.tree()) =~= ts);
        proof {
            lemma_hint_serializable(self.info);
            reveal_with_fuel(serializable, 8);
            assert(serializable(conditions_t(self.info.expiration, self.info.required_fee)));
            assert(serializable(price_t(self.info.price_data)));
            assert(serializable(b32_t(self.info.maker_puzzle_hash)));
            assert(forall|i: int| 0 <= i < ts.len() ==> serializable(#[trigger] ts[i]));
            lemma_serializable_curried(templates.partial.tree(), ts);
        }
        curry(templates.partial.duplicate(), args)
    }

    /// The maker's side of a fill: the offer coin revealing the core leaf,
    /// with the accept branch built in full and solved for
    /// `other_asset_amount` units of the requested asset and the optional
    /// payment `create_coin`; and the payment that the taker's spend must
    /// announce. The revealed script hashes to the coin's locking-script hash.
    pub fn fill_spend(
        &self,
        templates: &PuzzleTemplates,
        other_asset_amount: u64,
        create_coin: Option<(Bytes32, u64)>,
    ) -> (r: Result<(CoinSpend, NotarizedPayment), PartialOfferError>)
        requires
            templates.wf(),
        ensures
            r matches Ok((cs, np)) && cs.coin == self.coin && cs.puzzle_reveal@ == ser(self.offer_puzzle(*templates))
                && cs.solution@ == ser(self.fill_solution(*templates, other_asset_amount, create_coin))
                && tree_hash(self.offer_puzzle(*templates))
                    == full_asset_puzzle_hash_spec(self.info.offered_asset_info, inner_puzzle_hash_spec(self.info))
                && tree_hash(partial_puzzle_t(*templates, self.info)) == partial_puzzle_hash_spec(self.info)
                && np.nonce == self.coin.parent_coin_info && np.puzzle_hash == self.info.maker_puzzle_hash
                && np.amount == other_asset_amount,
            self.wf() ==> (r matches Ok((cs, np)) && tree_hash(self.offer_puzzle(*templates)) == self.coin.puzzle_hash@),
    {
        let reveal = match self.reveal_branch(SpendBranch::Fill) {
            Ok(b) => b,
            Err(e) => {
                return Err(e);
            },
        };
        let proof_value = Self::proof_program(&reveal);
        proof {
            lemma_partial_puzzle_hash(*templates, self.info);
            if partial_puzzle_hash_spec(self.info) == self.info.maker_puzzle_hash@ {
                assert(reveal.leaf@ == self.info.maker_puzzle_hash@);
            }
        }
        assert(proof_value.tree() == self.fill_proof());
        let partial = self.partial_puzzle(templates);
        let inner = self.info.inner_puzzle_hash();
        let solution_data = PartialSolution {
            my_data: CoinProof { parent_coin_info: self.coin.parent_coin_info, inner_puzzle_hash: inner, amount: self.coin.amount },
            other_asset_amount,
            create_coin_rest: create_coin,
        };
        let solution = solution_data.to_program();
        assert(solution.tree() == partial_solution_t(*self, other_asset_amount, create_coin));
        let selector_solution = list3_p(proof_value, partial, solution);
        let spend = self.selector_spend(templates, reveal.merkle_root, selector_solution);
        Ok((spend, self.notatized_payment(other_asset_amount)))
    }

    fn cat_solution(&self, inner_solution: Program) -> (r: Program)
        requires
            serializable(inner_solution.tree()),
        ensures
            serializable(r.tree()),
            r.tree() == cat_solution_t(inner_solution.tree(), *self),
    {
        let coin_id = self.coin.coin_id();
        let inner = self.info.inner_puzzle_hash();
        let next_inner = match self.info.offered_asset_info.hidden_puzzle_hash {
            Some(h) => crate::puzzles::revocation_puzzle_hash(h, inner),
            None => inner,
        };
        proof {
            lemma_u64_atom_facts(self.coin.amount);
            lemma_u64_atom_facts(0);
            assert(coin_id@.len() == 32);
            assert(next_inner@.len() == 32);
            assert(self.coin.parent_coin_info@.len() == 32);
            assert(self.coin.puzzle_hash@.len() == 32);
            if let Some(lp) = self.info.lineage_proof {
                lemma_u64_atom_facts(lp.parent_amount);
                assert(lp.parent_parent_coin_info@.len() == 32);
                assert(lp.parent_inner_puzzle_hash@.len() == 32);
            }
        }
        let this_coin = list3_p(b32_p(self.coin.parent_coin_info), b32_p(self.coin.puzzle_hash), u64_p(self.coin.amount));
        let next_proof = list3_p(b32_p(self.coin.parent_coin_info), b32_p(next_inner), u64_p(self.coin.amount));
        cons(
            inner_solution,
            cons(
                lineage_p(self.info.lineage_proof),
                cons(
                    b32_p(coin_id),
                    cons(this_coin, cons(next_proof, cons(u64_p(0), cons(u64_p(0), nil())))),
                ),
            ),
        )
    }
}

impl PartialOfferInfo {
    /// `inner` wrapped for `asset`, built in full: unchanged for the native
    /// currency, under the token layer for a token, with the revocation layer
    /// in between for a revocable token. Its hash is what
    /// `full_asset_puzzle_hash` computes from the hash of `inner`.
    pub fn full_puzzle(templates: &PuzzleTemplates, asset: PartialOfferAssetInfo, inner: Program) -> (r: Program)
        requires
            templates.wf(),
        ensures
            r.tree() == full_puzzle_t(*templates, asset, inner.tree()),
            serializable(inner.tree()) ==> serializable(r.tree()),
            tree_hash(r.tree()) == full_asset_puzzle_hash_spec(asset, tree_hash(inner.tree())),
    {
        proof {
            lemma_full_puzzle_hash(*templates, asset, inner.tree());
        }
        match asset.asset_id {
            None => inner,
            Some(id) => {
                proof {
                    assert(id@.len() == 32);
                    assert(CAT_PUZZLE_HASH@.len() == 32);
                }
                let wrapped = match asset.hidden_puzzle_hash {
                    None => inner,
                    Some(h) => {
                        let inner_hash = tree_hash_of(&inner);
                        let mut rev_args: Vec<Program> = Vec::new();
                        rev_args.push(b32_p(Bytes32::new(REVOCATION_LAYER_HASH)));
                        rev_args.push(b32_p(h));
                        rev_args.push(b32_p(inner_hash));
                        let ghost args = seq![Tree::Atom(REVOCATION_LAYER_HASH@), b32_t(h), Tree::Atom(tree_hash(inner.tree()))];
                        assert(rev_args@.map_values(|a: Program| a.tree()) =~= args);
                        proof {
                            assert(h@.len() == 32);
                            assert(inner_hash@.len() == 32);
                            assert(REVOCATION_LAYER_HASH@.len() == 32);
                            if serializable(inner.tree()) {
                                lemma_serializable_curried(templates.revocation.tree(), args);
                            }
                        }
                        curry(templates.revocation.duplicate(), rev_args)
                    },
                };
                let mut cat_args: Vec<Program> = Vec::new();
                cat_args.push(b32_p(Bytes32::new(CAT_PUZZLE_HASH)));
                cat_args.push(b32_p(id));
                cat_args.push(wrapped);
                let ghost args = seq![Tree::Atom(CAT_PUZZLE_HASH@), b32_t(id), cat_args@[2].tree()];
                assert(cat_args@.map_values(|a: Program| a.tree()) =~= args);
                proof {
                    if serializable(inner.tree()) {
                        lemma_serializable_curried(templates.cat.tree(), args);
                    }
                }
                curry(templates.cat.duplicate(), cat_args)
            },
        }
    }

}

} // verus!
