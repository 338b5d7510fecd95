use partial_offers::atom::{decode_u64, encode_u64};
use partial_offers::templates::{
    CAT_PUZZLE, DEFAULT_CAT_MAKER_PUZZLE, P2_1_OF_N, REVOCABLE_CAT_MAKER_PUZZLE, REVOCATION_LAYER, XCH_CAT_MAKER_PUZZLE,
};
use partial_offers::hash::tree_hash_pair;
use partial_offers::puzzles::{revocable_cat_maker_hash, REVOCABLE_CAT_MAKER_PUZZLE_HASH};
use partial_offers::hash::{curry_tree_hash, tree_hash_atom};
use partial_offers::puzzles::{
    cat_puzzle_hash, default_cat_maker_hash, one_of_many_puzzle_hash, revocation_puzzle_hash,
    CAT_PUZZLE_HASH, DEFAULT_CAT_MAKER_PUZZLE_HASH, P2_1_OF_N_HASH, REVOCATION_LAYER_HASH,
};
use partial_offers::clvm::{parse, serialize};
use partial_offers::hash::tree_hash_of;
use partial_offers::puzzles::{SETTLEMENT_PAYMENT_HASH, XCH_CAT_MAKER_PUZZLE_HASH};
use partial_offers::{
    decode_partial_offer_data, encode_partial_offer_data, Bytes32, Coin, CoinSpend,
    CounterOffer, FormatError, HintError, LineageProof, PartialOffer, PartialOfferAssetInfo,
    PartialOfferError, PartialOfferHint, PartialOfferInfo, PartialPriceData, SpendBranch,
    SpendBundle, PARTIAL_PUZZLE, PARTIAL_PUZZLE_HASH,
};

fn id(x: u8) -> Bytes32 {
    Bytes32::new([x; 32])
}

fn price() -> PartialPriceData {
    PartialPriceData { price_precision: 100_000, precision: 20_000 }
}

fn offer_info(
    offered: PartialOfferAssetInfo,
    requested: PartialOfferAssetInfo,
    expiration: Option<u64>,
    required_fee: Option<u64>,
) -> PartialOfferInfo {
    let lineage = if offered.asset_id.is_some() {
        Some(LineageProof {
            parent_parent_coin_info: id(21),
            parent_inner_puzzle_hash: id(22),
            parent_amount: 100_000,
        })
    } else {
        None
    };
    PartialOfferInfo::new(lineage, offered, requested, id(7), expiration, required_fee, price())
}

fn sha256(parts: &[&[u8]]) -> [u8; 32] {
    let mut h = chia_sha2::Sha256::new();
    for p in parts {
        h.update(p);
    }
    h.finalize()
}

fn other_spend(x: u8) -> CoinSpend {
    CoinSpend::new(Coin::new(id(x), id(x + 1), 5 + x as u64), vec![0x80], vec![0x80])
}

#[test]
fn test_puzzle_hashes() {
    let mut a = clvmr::Allocator::new();
    let ptr = clvmr::serde::node_from_bytes(&mut a, &PARTIAL_PUZZLE).unwrap();
    let hash = clvm_utils::tree_hash(&a, ptr);
    assert_eq!(hash.to_bytes(), PARTIAL_PUZZLE_HASH);
}

#[test]
fn template_hash_through_library_parser() {
    let program = parse(&PARTIAL_PUZZLE.to_vec()).expect("template parses");
    assert_eq!(serialize(&program), PARTIAL_PUZZLE.to_vec());
    assert_eq!(tree_hash_of(&program).bytes, PARTIAL_PUZZLE_HASH);
}

#[test]
fn constants_match_outside_crates() {
    assert_eq!(SETTLEMENT_PAYMENT_HASH, chia_puzzles::SETTLEMENT_PAYMENT_HASH);
    assert_eq!(XCH_CAT_MAKER_PUZZLE_HASH, chia_sdk_types::puzzles::XCH_CAT_MAKER_PUZZLE_HASH.to_bytes());
}

#[test]
fn quote_and_reverse_quote_values() {
    let p = PartialPriceData { price_precision: 7, precision: 2 };
    assert_eq!(PartialOffer::quote(3, p), Ok(10));
    assert_eq!(PartialOffer::reverse_quote(10, p), Ok(2));
    assert_eq!(PartialOffer::quote(4, p), Ok(14));
    assert_eq!(PartialOffer::reverse_quote(14, p), Ok(4));
    assert_eq!(PartialOffer::quote(20_000, price()), Ok(100_000));
    assert_eq!(PartialOffer::reverse_quote(100_000, price()), Ok(20_000));
}

#[test]
fn quote_overflow_is_reported() {
    let p = PartialPriceData { price_precision: 2, precision: 1 };
    assert_eq!(PartialOffer::quote(u64::MAX, p), Err(PartialOfferError::ArithmeticOverflow));
    let q = PartialPriceData { price_precision: 1, precision: 3 };
    assert_eq!(PartialOffer::reverse_quote(u64::MAX, q), Err(PartialOfferError::ArithmeticOverflow));
}

#[test]
fn reverse_quote_never_exceeds_amount() {
    let prices = [(7u64, 2u64), (100_000, 20_000), (3, 7), (1, 1), (13, 1_000)];
    for (pp, pr) in prices {
        let p = PartialPriceData { price_precision: pp, precision: pr };
        for amount in [0u64, 1, 2, 5, 999, 20_000, 4_000_000_000] {
            let q = PartialOffer::quote(amount, p).unwrap();
            let back = PartialOffer::reverse_quote(q, p).unwrap();
            assert!(back <= amount);
            assert_eq!(back == amount, (amount * pp) % pr == 0);
        }
    }
}

#[test]
fn codec_round_trip() {
    let samples: Vec<Vec<u8>> = vec![
        vec![],
        vec![0],
        vec![0xff],
        vec![1, 2, 3, 4, 5],
        (0..=255u8).collect(),
    ];
    for b in samples {
        let s = encode_partial_offer_data(&b).unwrap();
        assert!(s.starts_with("partial1"));
        assert_eq!(decode_partial_offer_data(&s).unwrap(), b);
    }
}

#[test]
fn codec_rejects_wrong_prefix() {
    let data = bech32::convert_bits(&[1u8, 2, 3], 8, 5, true).unwrap();
    let data: Vec<bech32::u5> = data.into_iter().map(|g| bech32::u5::try_from_u8(g).unwrap()).collect();
    let s = bech32::encode("xyz", data, bech32::Variant::Bech32m).unwrap();
    assert_eq!(decode_partial_offer_data(&s), Err(PartialOfferError::Format(FormatError::WrongPrefix)));
}

#[test]
fn codec_rejects_wrong_variant() {
    let data = bech32::convert_bits(&[1u8, 2, 3], 8, 5, true).unwrap();
    let data: Vec<bech32::u5> = data.into_iter().map(|g| bech32::u5::try_from_u8(g).unwrap()).collect();
    let s = bech32::encode("partial", data, bech32::Variant::Bech32).unwrap();
    assert_eq!(decode_partial_offer_data(&s), Err(PartialOfferError::Format(FormatError::WrongVariant)));
}

#[test]
fn codec_rejects_bad_padding() {
    let data: Vec<bech32::u5> = vec![bech32::u5::try_from_u8(31).unwrap(), bech32::u5::try_from_u8(31).unwrap()];
    let s = bech32::encode("partial", data, bech32::Variant::Bech32m).unwrap();
    assert_eq!(decode_partial_offer_data(&s), Err(PartialOfferError::Format(FormatError::BadPadding)));
    let long: Vec<bech32::u5> = (0..3).map(|_| bech32::u5::try_from_u8(0).unwrap()).collect();
    let s = bech32::encode("partial", long, bech32::Variant::Bech32m).unwrap();
    assert_eq!(decode_partial_offer_data(&s), Err(PartialOfferError::Format(FormatError::BadPadding)));
}

#[test]
fn codec_rejects_malformed() {
    assert_eq!(decode_partial_offer_data("not an offer"), Err(PartialOfferError::Format(FormatError::Malformed)));
}

#[test]
fn encoding_matches_bech32_crate() {
    let b = vec![9u8, 8, 7];
    let data = bech32::convert_bits(&b, 8, 5, true).unwrap();
    let data: Vec<bech32::u5> = data.into_iter().map(|g| bech32::u5::try_from_u8(g).unwrap()).collect();
    let expected = bech32::encode("partial", data, bech32::Variant::Bech32m).unwrap();
    assert_eq!(encode_partial_offer_data(&b).unwrap(), expected);
}

fn all_infos() -> Vec<PartialOfferInfo> {
    let assets = [
        PartialOfferAssetInfo::xch(),
        PartialOfferAssetInfo::cat(id(9), None),
        PartialOfferAssetInfo::cat(id(10), Some(id(11))),
    ];
    let mut r = Vec::new();
    for offered in assets {
        for requested in assets {
            for expiration in [None, Some(100u64)] {
                for fee in [None, Some(4_200_000u64)] {
                    r.push(offer_info(offered, requested, expiration, fee));
                }
            }
        }
    }
    r
}

#[test]
fn bundle_round_trip() {
    for info in all_infos() {
        let mut offer = PartialOffer::new(id(3), 100_000, info);
        offer.spend_bundle.coin_spends.push(other_spend(40));
        offer.spend_bundle.coin_spends.push(other_spend(50));
        let coin = offer.coin;
        let bundle = offer.to_spend_bundle();
        assert_eq!(bundle.coin_spends.len(), 3);
        let back = PartialOffer::from_spend_bundle(bundle).unwrap();
        assert_eq!(back.info, info);
        assert_eq!(back.coin, coin);
        assert_eq!(back.spend_bundle.coin_spends, vec![other_spend(40), other_spend(50)]);
    }
}

#[test]
fn bundle_without_hint_is_missing() {
    let bundle = SpendBundle::new(vec![other_spend(40)], [0u8; 96]);
    assert_eq!(PartialOffer::from_spend_bundle(bundle).unwrap_err(), PartialOfferError::Hint(HintError::Missing));
}

#[test]
fn bundle_with_two_hints_conflicts() {
    let info = offer_info(PartialOfferAssetInfo::xch(), PartialOfferAssetInfo::cat(id(9), None), None, None);
    let first = PartialOffer::new(id(3), 100_000, info).to_spend_bundle();
    let second = PartialOffer::new(id(4), 50_000, info).to_spend_bundle();
    let mut spends = first.coin_spends.clone();
    spends.extend(second.coin_spends);
    let bundle = SpendBundle::new(spends, [0u8; 96]);
    assert_eq!(PartialOffer::from_spend_bundle(bundle).unwrap_err(), PartialOfferError::Hint(HintError::Conflicting));
}

#[test]
fn bundle_with_unreadable_hint_is_ambiguous() {
    let hint_coin = Coin::new(id(3), id(1), 10);
    let bundle = SpendBundle::new(vec![CoinSpend::new(hint_coin, vec![0xff, 0x01], vec![0x80])], [0u8; 96]);
    assert_eq!(PartialOffer::from_spend_bundle(bundle).unwrap_err(), PartialOfferError::Hint(HintError::Ambiguous));
}

#[test]
fn reordered_conditions_are_refused() {
    let info = offer_info(PartialOfferAssetInfo::xch(), PartialOfferAssetInfo::xch(), Some(100), Some(7));
    let hint = info.to_hint();
    assert_eq!(PartialOfferInfo::from_hint(&hint), Some(info));
    let swapped = PartialOfferInfo::new(None, info.offered_asset_info, info.requested_asset_info, id(7), None, Some(100), price());
    let swapped_hint = swapped.to_hint();
    let odd = PartialOfferHint { inner_conditions: partial_offers::Program::Atom(vec![5]), ..swapped_hint };
    assert_eq!(PartialOfferInfo::from_hint(&odd), None);
}

fn templates() -> partial_offers::PuzzleTemplates {
    partial_offers::PuzzleTemplates::load().expect("templates load")
}

fn counter_with_cat(asset: Bytes32, amount: u64) -> CounterOffer {
    CounterOffer {
        offered_xch: vec![],
        offered_cats: vec![(asset, Coin::new(id(30), id(31), amount))],
        requested_payments: vec![],
        spend_bundle: SpendBundle::new(vec![other_spend(60)], identity_signature()),
    }
}

#[test]
fn full_fill_has_no_child() {
    let info = offer_info(PartialOfferAssetInfo::xch(), PartialOfferAssetInfo::cat(id(9), None), None, None);
    let offer = PartialOffer::new(id(3), 100_000, info);
    let accepted = offer.accept_offer(&templates(), counter_with_cat(id(9), 20_000)).unwrap();
    assert_eq!(accepted.output_amount, 100_000);
    assert_eq!(accepted.other_asset_amount, 20_000);
    assert!(accepted.child.is_none());
}

#[test]
fn partial_fill_leaves_child() {
    let info = offer_info(PartialOfferAssetInfo::xch(), PartialOfferAssetInfo::cat(id(9), None), None, None);
    let offer = PartialOffer::new(id(3), 100_000, info);
    let parent_coin = offer.coin;
    let accepted = offer.accept_offer(&templates(), counter_with_cat(id(9), 5_000)).unwrap();
    assert_eq!(accepted.output_amount, 25_000);
    let child = accepted.child.unwrap();
    assert_eq!(child.coin.amount, 75_000);
    assert_eq!(child.coin.puzzle_hash, parent_coin.puzzle_hash);
    assert_eq!(child.coin.parent_coin_info, parent_coin.coin_id());
    assert_eq!(child.info, info);
    assert_eq!(accepted.settlement_coin.amount, 25_000);
    assert_eq!(accepted.settlement_coin.parent_coin_info, parent_coin.coin_id());
    assert_eq!(accepted.notarized_payment.amount, 5_000);
    assert_eq!(accepted.notarized_payment.nonce, id(3));
}

#[test]
fn partial_fill_of_token_updates_lineage() {
    let info = offer_info(PartialOfferAssetInfo::cat(id(9), None), PartialOfferAssetInfo::xch(), None, None);
    let offer = PartialOffer::new(id(3), 100_000, info);
    let child = offer.child(75_000);
    let lp = child.info.lineage_proof.unwrap();
    assert_eq!(lp.parent_parent_coin_info, id(3));
    assert_eq!(lp.parent_amount, 100_000);
    assert_eq!(lp.parent_inner_puzzle_hash, info.inner_puzzle_hash());
    assert_eq!(PartialOfferInfo { lineage_proof: info.lineage_proof, ..child.info }, info);
}

#[test]
fn accept_without_requested_asset_is_incompatible() {
    let info = offer_info(PartialOfferAssetInfo::xch(), PartialOfferAssetInfo::cat(id(9), None), None, None);
    let offer = PartialOffer::new(id(3), 100_000, info);
    assert_eq!(offer.accept_offer(&templates(), counter_with_cat(id(8), 5_000)).unwrap_err(), PartialOfferError::IncompatibleAssetInfo);
}

#[test]
fn accept_with_fee_needs_native_coin() {
    let info = offer_info(PartialOfferAssetInfo::xch(), PartialOfferAssetInfo::cat(id(9), None), None, Some(10));
    let offer = PartialOffer::new(id(3), 100_000, info);
    assert_eq!(offer.accept_offer(&templates(), counter_with_cat(id(9), 5_000)).unwrap_err(), PartialOfferError::IncompatibleAssetInfo);
}

#[test]
fn accept_nets_fee_from_native_coin() {
    let info = offer_info(PartialOfferAssetInfo::cat(id(9), None), PartialOfferAssetInfo::xch(), None, Some(10));
    let offer = PartialOffer::new(id(3), 100_000, info);
    let payment = partial_offers::NotarizedPayment { nonce: id(3), puzzle_hash: id(33), amount: 25_000, memos: vec![] };
    let mut counter = CounterOffer {
        offered_xch: vec![Coin::new(id(30), id(31), 5_010)],
        offered_cats: vec![],
        requested_payments: vec![],
        spend_bundle: SpendBundle::new(vec![], identity_signature()),
    };
    assert_eq!(offer.accept_offer(&templates(), counter.clone()).unwrap_err(), PartialOfferError::IncompatibleAssetInfo);
    counter.requested_payments.push((Some(id(9)), payment));
    let offer = PartialOffer::new(id(3), 100_000, info);
    let accepted = offer.accept_offer(&templates(), counter).unwrap();
    assert_eq!(accepted.other_asset_amount, 5_000);
    assert_eq!(accepted.output_amount, 25_000);
}

#[test]
fn accept_over_fill_is_refused() {
    let info = offer_info(PartialOfferAssetInfo::xch(), PartialOfferAssetInfo::cat(id(9), None), None, None);
    let offer = PartialOffer::new(id(3), 100_000, info);
    assert_eq!(offer.accept_offer(&templates(), counter_with_cat(id(9), 20_001)).unwrap_err(), PartialOfferError::OverFill);
}

#[test]
fn claw_back_proof_verifies_against_root() {
    let info = offer_info(PartialOfferAssetInfo::cat(id(9), Some(id(12))), PartialOfferAssetInfo::xch(), Some(5), None);
    let offer = PartialOffer::new(id(3), 100_000, info);
    let core = info.partial_puzzle_hash();
    let expected_root = chia_sdk_types::MerkleTree::new(&[
        chia_protocol::Bytes32::new(core.bytes),
        chia_protocol::Bytes32::new(id(7).bytes),
    ])
    .root();
    let reveal = offer.claw_back().unwrap();
    assert_eq!(reveal.branch, SpendBranch::ClawBack);
    assert_eq!(reveal.leaf, id(7));
    assert_eq!(reveal.merkle_root.bytes, expected_root.to_bytes());
    assert_eq!(reveal.proof.path, 1);
    let leaf_hash = sha256(&[&[1], &id(7).bytes]);
    let root = sha256(&[&[2], &reveal.proof.proof[0].bytes, &leaf_hash]);
    assert_eq!(root, reveal.merkle_root.bytes);
    let fill = offer.reveal_branch(SpendBranch::Fill).unwrap();
    assert_eq!(fill.leaf, core);
    assert_eq!(fill.merkle_root, reveal.merkle_root);
    let core_leaf = sha256(&[&[1], &core.bytes]);
    assert_eq!(sha256(&[&[2], &core_leaf, &fill.proof.proof[0].bytes]), fill.merkle_root.bytes);
}

#[test]
fn coin_id_matches_protocol() {
    for amount in [0u64, 1, 0x7f, 0x80, 100_000, u64::MAX] {
        let coin = Coin::new(id(3), id(4), amount);
        let theirs = chia_protocol::Coin::new(
            chia_protocol::Bytes32::new([3; 32]),
            chia_protocol::Bytes32::new([4; 32]),
            amount,
        );
        assert_eq!(coin.coin_id().bytes, theirs.coin_id().to_bytes());
    }
}

#[test]
fn full_hash_wraps_token_layers() {
    let inner = id(44);
    let xch = PartialOfferInfo::full_asset_puzzle_hash(PartialOfferAssetInfo::xch(), inner);
    assert_eq!(xch, inner);
    let cat = PartialOfferInfo::full_asset_puzzle_hash(PartialOfferAssetInfo::cat(id(9), None), inner);
    let expected = chia_puzzle_types::cat::CatArgs::curry_tree_hash(
        chia_protocol::Bytes32::new([9; 32]),
        clvm_utils::TreeHash::new([44; 32]),
    );
    assert_eq!(cat.bytes, expected.to_bytes());
    let revocable = PartialOfferInfo::full_asset_puzzle_hash(PartialOfferAssetInfo::cat(id(9), Some(id(12))), inner);
    assert_ne!(revocable, cat);
    assert_ne!(revocable, inner);
}

#[test]
fn offer_coin_hash_follows_layers() {
    let native = offer_info(PartialOfferAssetInfo::xch(), PartialOfferAssetInfo::cat(id(9), None), None, None);
    assert_eq!(native.puzzle_hash(), native.inner_puzzle_hash());
    let token = offer_info(PartialOfferAssetInfo::cat(id(9), None), PartialOfferAssetInfo::xch(), None, None);
    assert_ne!(token.puzzle_hash(), token.inner_puzzle_hash());
    let later = offer_info(PartialOfferAssetInfo::xch(), PartialOfferAssetInfo::cat(id(9), None), Some(100), None);
    assert_ne!(native.partial_puzzle_hash(), later.partial_puzzle_hash());
}

#[test]
fn integer_atoms_are_minimal() {
    assert_eq!(encode_u64(0), Vec::<u8>::new());
    assert_eq!(encode_u64(0x7f), vec![0x7f]);
    assert_eq!(encode_u64(0x80), vec![0x00, 0x80]);
    assert_eq!(encode_u64(100_000), vec![0x01, 0x86, 0xa0]);
    assert_eq!(encode_u64(u64::MAX), vec![0, 0xff, 0xff, 0xff, 0xff, 0xff, 0xff, 0xff, 0xff]);
    assert_eq!(decode_u64(&vec![0x00, 0x80]), Some(0x80));
    assert_eq!(decode_u64(&vec![0x00, 0x01]), None);
    assert_eq!(decode_u64(&vec![0x80]), None);
}

#[test]
fn hint_serialization_matches_clvm() {
    let info = offer_info(PartialOfferAssetInfo::cat(id(9), Some(id(12))), PartialOfferAssetInfo::xch(), Some(100), Some(4_200_000));
    let bytes = serialize(&info.to_hint().to_program());
    let mut a = clvmr::Allocator::new();
    let ptr = clvmr::serde::node_from_bytes(&mut a, &bytes).unwrap();
    assert_eq!(clvmr::serde::node_to_bytes(&a, ptr).unwrap(), bytes);
    let program = parse(&bytes).unwrap();
    assert_eq!(tree_hash_of(&program).bytes, clvm_utils::tree_hash(&a, ptr).to_bytes());
}

fn identity_signature() -> [u8; 96] {
    let mut s = [0u8; 96];
    s[0] = 0xc0;
    s
}

#[test]
fn take_concatenates_spends_and_adds_signatures() {
    let info = offer_info(PartialOfferAssetInfo::xch(), PartialOfferAssetInfo::cat(id(9), None), None, None);
    let mut offer = PartialOffer::new(id(3), 100_000, info);
    offer.spend_bundle.coin_spends.push(other_spend(40));
    let sk = chia_bls::SecretKey::from_seed(&[7u8; 32]);
    let sig = chia_bls::sign(&sk, b"partial");
    let other = SpendBundle::new(vec![other_spend(50)], sig.to_bytes());
    let combined = offer.take(other).unwrap();
    assert_eq!(combined.coin_spends, vec![other_spend(40), other_spend(50)]);
    let expected = chia_bls::Signature::from_bytes(&identity_signature()).unwrap() + &sig;
    assert_eq!(combined.aggregated_signature, expected.to_bytes());
}

#[test]
fn take_refuses_invalid_signature() {
    let info = offer_info(PartialOfferAssetInfo::xch(), PartialOfferAssetInfo::cat(id(9), None), None, None);
    let offer = PartialOffer::new(id(3), 100_000, info);
    let other = SpendBundle::new(vec![], [0u8; 96]);
    assert_eq!(offer.take(other), Err(PartialOfferError::InvalidSignature));
}

#[test]
fn built_accept_branch_hashes_like_shortcut() {
    let info = offer_info(PartialOfferAssetInfo::cat(id(9), None), PartialOfferAssetInfo::xch(), Some(100), Some(3));
    let mut args = info.to_args();
    let stand_in = partial_offers::Program::Atom(vec![5, 6, 7]);
    args.cat_maker = tree_hash_of(&stand_in);
    let built = args.curry_puzzle(&templates(), stand_in);
    assert_eq!(tree_hash_of(&built), args.curry_tree_hash());
    let bytes = serialize(&built);
    let mut a = clvmr::Allocator::new();
    let ptr = clvmr::serde::node_from_bytes(&mut a, &bytes).unwrap();
    assert_eq!(clvm_utils::tree_hash(&a, ptr).to_bytes(), args.curry_tree_hash().bytes);
}

#[test]
fn layer_hashes_follow_their_templates() {
    assert_eq!(CAT_PUZZLE_HASH, chia_puzzles::CAT_PUZZLE_HASH);
    assert_eq!(REVOCATION_LAYER_HASH, chia_puzzles::REVOCATION_LAYER_HASH);
    assert_eq!(P2_1_OF_N_HASH, chia_puzzles::P2_1_OF_N_HASH);
    assert_eq!(DEFAULT_CAT_MAKER_PUZZLE_HASH, chia_sdk_types::puzzles::DEFAULT_CAT_MAKER_PUZZLE_HASH.to_bytes());
    let atom = |b: Bytes32| tree_hash_atom(&b.bytes.to_vec());
    let cat = Bytes32::new(CAT_PUZZLE_HASH);
    let rev = Bytes32::new(REVOCATION_LAYER_HASH);
    assert_eq!(
        cat_puzzle_hash(id(9), id(44)),
        curry_tree_hash(cat, &vec![atom(cat), atom(id(9)), id(44)])
    );
    assert_eq!(
        revocation_puzzle_hash(id(12), id(44)),
        curry_tree_hash(rev, &vec![atom(rev), atom(id(12)), atom(id(44))])
    );
    assert_eq!(
        one_of_many_puzzle_hash(id(44)),
        curry_tree_hash(Bytes32::new(P2_1_OF_N_HASH), &vec![atom(id(44))])
    );
    assert_eq!(
        default_cat_maker_hash(id(45)),
        curry_tree_hash(Bytes32::new(DEFAULT_CAT_MAKER_PUZZLE_HASH), &vec![atom(cat), atom(id(45))])
    );
}

#[test]
fn claw_back_spend_reveals_the_coin_script() {
    let templates = partial_offers::templates::PuzzleTemplates::load().expect("templates load");
    let assets = [
        PartialOfferAssetInfo::xch(),
        PartialOfferAssetInfo::cat(id(9), None),
        PartialOfferAssetInfo::cat(id(10), Some(id(11))),
    ];
    for offered in assets {
        let info = offer_info(offered, PartialOfferAssetInfo::xch(), Some(100), Some(5));
        let offer = PartialOffer::new(id(3), 100_000, info);
        let inner_puzzle = partial_offers::Program::Atom(vec![1]);
        let inner_solution = partial_offers::Program::Atom(vec![]);
        let spend = offer.claw_back_spend(&templates, inner_puzzle, inner_solution).unwrap();
        assert_eq!(spend.coin, offer.coin);
        let mut a = clvmr::Allocator::new();
        let ptr = clvmr::serde::node_from_bytes(&mut a, &spend.puzzle_reveal).unwrap();
        assert_eq!(clvm_utils::tree_hash(&a, ptr).to_bytes(), offer.coin.puzzle_hash.bytes);
        assert!(clvmr::serde::node_from_bytes(&mut a, &spend.solution).is_ok());
    }
}

#[test]
fn templates_match_published_programs() {
    assert_eq!(CAT_PUZZLE, chia_puzzles::CAT_PUZZLE);
    assert_eq!(REVOCATION_LAYER, chia_puzzles::REVOCATION_LAYER);
    assert_eq!(P2_1_OF_N, chia_puzzles::P2_1_OF_N);
}

#[test]
fn cat_maker_hashes_follow_asset_kind() {
    let xch = PartialOfferInfo::to_cat_maker(PartialOfferAssetInfo::xch()).curry_tree_hash();
    assert_eq!(xch.bytes, XCH_CAT_MAKER_PUZZLE_HASH);
    let plain = PartialOfferInfo::to_cat_maker(PartialOfferAssetInfo::cat(id(9), None)).curry_tree_hash();
    let tail_hash_hash = clvm_utils::tree_hash_atom(&[9u8; 32]);
    let expected_plain = chia_sdk_types::Mod::curry_tree_hash(&chia_sdk_types::puzzles::DefaultCatMakerArgs::new(
        chia_protocol::Bytes32::new(tail_hash_hash.to_bytes()),
    ));
    assert_eq!(plain.bytes, expected_plain.to_bytes());
    let revocable = PartialOfferInfo::to_cat_maker(PartialOfferAssetInfo::cat(id(9), Some(id(12)))).curry_tree_hash();
    let expected_revocable = chia_sdk_types::Mod::curry_tree_hash(&chia_sdk_types::puzzles::RevocableCatMakerArgs::new(
        tail_hash_hash,
        clvm_utils::tree_hash_atom(&[12u8; 32]),
    ));
    assert_eq!(revocable.bytes, expected_revocable.to_bytes());
    assert_ne!(revocable, plain);
    assert_ne!(revocable.bytes, tail_hash_hash.to_bytes());
}

#[test]
fn full_puzzle_hashes_like_full_asset_hash() {
    let templates = partial_offers::templates::PuzzleTemplates::load().expect("templates load");
    let inner = partial_offers::Program::Atom(vec![1]);
    let inner_hash = tree_hash_of(&inner);
    for asset in [
        PartialOfferAssetInfo::xch(),
        PartialOfferAssetInfo::cat(id(9), None),
        PartialOfferAssetInfo::cat(id(10), Some(id(11))),
    ] {
        let built = PartialOfferInfo::full_puzzle(&templates, asset, partial_offers::Program::Atom(vec![1]));
        let bytes = serialize(&built);
        let mut a = clvmr::Allocator::new();
        let ptr = clvmr::serde::node_from_bytes(&mut a, &bytes).unwrap();
        assert_eq!(
            clvm_utils::tree_hash(&a, ptr).to_bytes(),
            PartialOfferInfo::full_asset_puzzle_hash(asset, inner_hash).bytes
        );
    }
}

fn clvm_hash(bytes: &[u8]) -> [u8; 32] {
    let mut a = clvmr::Allocator::new();
    let ptr = clvmr::serde::node_from_bytes(&mut a, bytes).unwrap();
    clvm_utils::tree_hash(&a, ptr).to_bytes()
}

#[test]
fn fill_spend_reveals_the_coin_script_and_core_branch() {
    let templates = templates();
    let assets = [
        PartialOfferAssetInfo::xch(),
        PartialOfferAssetInfo::cat(id(9), None),
        PartialOfferAssetInfo::cat(id(10), Some(id(11))),
    ];
    for offered in assets {
        for requested in assets {
            let info = offer_info(offered, requested, Some(100), Some(5));
            let offer = PartialOffer::new(id(3), 100_000, info);
            let core = offer.partial_puzzle(&templates);
            assert_eq!(tree_hash_of(&core), info.partial_puzzle_hash());
            assert_eq!(clvm_hash(&serialize(&core)), info.partial_puzzle_hash().bytes);
            let (spend, payment) = offer.fill_spend(&templates, 5_000, Some((id(50), 25_000))).unwrap();
            assert_eq!(spend.coin, offer.coin);
            assert_eq!(clvm_hash(&spend.puzzle_reveal), offer.coin.puzzle_hash.bytes);
            assert_eq!(payment.amount, 5_000);
            assert_eq!(payment.nonce, id(3));
            assert_eq!(payment.puzzle_hash, id(7));
            let mut a = clvmr::Allocator::new();
            assert!(clvmr::serde::node_from_bytes(&mut a, &spend.solution).is_ok());
        }
    }
}

#[test]
fn accept_joins_both_sides_into_one_bundle() {
    let info = offer_info(PartialOfferAssetInfo::xch(), PartialOfferAssetInfo::cat(id(9), None), None, None);
    let mut offer = PartialOffer::new(id(3), 100_000, info);
    offer.spend_bundle.coin_spends.push(other_spend(40));
    let coin = offer.coin;
    let accepted = offer.accept_offer(&templates(), counter_with_cat(id(9), 5_000)).unwrap();
    let spends = &accepted.spend_bundle.coin_spends;
    assert_eq!(spends.len(), 3);
    assert_eq!(spends[0], other_spend(40));
    assert_eq!(spends[1].coin, coin);
    assert_eq!(clvm_hash(&spends[1].puzzle_reveal), coin.puzzle_hash.bytes);
    assert_eq!(spends[2], other_spend(60));
    assert_eq!(accepted.spend_bundle.aggregated_signature, identity_signature());
}

#[test]
fn new_offer_carries_identity_signature() {
    let info = offer_info(PartialOfferAssetInfo::xch(), PartialOfferAssetInfo::cat(id(9), None), None, None);
    let offer = PartialOffer::new(id(3), 100_000, info);
    assert_eq!(offer.spend_bundle.aggregated_signature, identity_signature());
    assert!(offer.spend_bundle.coin_spends.is_empty());
    assert_eq!(offer.coin.puzzle_hash, info.puzzle_hash());
}

#[test]
fn long_atoms_serialize_like_clvm() {
    for len in [0usize, 1, 63, 64, 100, 0x1fff, 0x2000, 70_000] {
        let atom: Vec<u8> = (0..len).map(|i| (i % 251) as u8 + 1).collect();
        let program = partial_offers::Program::Pair(
            Box::new(partial_offers::Program::Atom(atom.clone())),
            Box::new(partial_offers::Program::Atom(vec![0x80])),
        );
        let bytes = serialize(&program);
        let mut a = clvmr::Allocator::new();
        let ptr = clvmr::serde::node_from_bytes(&mut a, &bytes).unwrap();
        assert_eq!(clvmr::serde::node_to_bytes(&a, ptr).unwrap(), bytes);
        let back = parse(&bytes).unwrap();
        assert_eq!(serialize(&back), bytes);
        assert_eq!(tree_hash_of(&back).bytes, clvm_utils::tree_hash(&a, ptr).to_bytes());
    }
    assert!(parse(&vec![0x81, 0x05]).is_none());
    assert!(parse(&vec![0xc0, 0x01, 0xaa]).is_none());
}

#[test]
fn claw_back_accepts_long_maker_atoms() {
    let templates = templates();
    let info = offer_info(PartialOfferAssetInfo::cat(id(9), None), PartialOfferAssetInfo::xch(), None, None);
    let offer = PartialOffer::new(id(3), 100_000, info);
    let inner_puzzle = partial_offers::Program::Atom(vec![7u8; 300]);
    let spend = offer.claw_back_spend(&templates, inner_puzzle, partial_offers::Program::Atom(vec![])).unwrap();
    assert_eq!(clvm_hash(&spend.puzzle_reveal), offer.coin.puzzle_hash.bytes);
    let reveal = offer.claw_back().unwrap();
    assert_eq!(reveal.proof.path, 1);
    assert_eq!(reveal.proof.proof, vec![Bytes32::new(sha256(&[&[1], &info.partial_puzzle_hash().bytes]))]);
}

#[test]
fn revocable_maker_hash_is_curried_structure() {
    let atom = |b: Bytes32| tree_hash_atom(&b.bytes.to_vec());
    let structure = tree_hash_pair(
        atom(Bytes32::new(CAT_PUZZLE_HASH)),
        tree_hash_pair(atom(Bytes32::new(REVOCATION_LAYER_HASH)), atom(id(12))),
    );
    assert_eq!(
        revocable_cat_maker_hash(id(45), id(12)),
        curry_tree_hash(Bytes32::new(REVOCABLE_CAT_MAKER_PUZZLE_HASH), &vec![structure, atom(id(45))])
    );
}

#[test]
fn maker_templates_match_published_programs() {
    assert_eq!(XCH_CAT_MAKER_PUZZLE, chia_sdk_types::puzzles::XCH_CAT_MAKER_PUZZLE);
    assert_eq!(DEFAULT_CAT_MAKER_PUZZLE, chia_sdk_types::puzzles::DEFAULT_CAT_MAKER_PUZZLE);
    assert_eq!(REVOCABLE_CAT_MAKER_PUZZLE, chia_sdk_types::puzzles::REVOCABLE_CAT_MAKER_PUZZLE);
}
