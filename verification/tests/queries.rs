use sigmaverse::cybor_nft::cybor_template::{lookup, resolve};
use sigmaverse::cybor_nft::{
    CyborEvents, CyborMetadata, CyborNFTService, CyborRace, CyborState, CyborStream,
    CyborTemplate, MessageContext,
};
use sigmaverse::primitives::{ActorId, TokenId};
use sigmaverse::storage::Storage;

fn who(n: u128) -> ActorId {
    ActorId::new(n, n + 1)
}

fn id(n: u128) -> TokenId {
    TokenId::from_u128(n)
}

fn at(sender: ActorId, attached_value: u128, block_height: u32) -> MessageContext {
    MessageContext { sender, attached_value, block_height }
}

fn fresh() -> CyborNFTService {
    CyborNFTService::init(CyborState::new(), Storage::init())
}

fn mint(svc: &mut CyborNFTService, sender: ActorId, race: CyborRace, block: u32) -> TokenId {
    match svc.mint(&at(sender, u128::MAX, block), race) {
        Ok(CyborEvents::Minted { value, .. }) => value,
        other => panic!("mint failed: {:?}", other),
    }
}

#[test]
fn templates_of_the_registry() {
    let svc = fresh();
    let rodriguez = svc.get_template(CyborRace::Rodriguez);
    assert_eq!(rodriguez, CyborTemplate::rodriguez());
    assert_eq!(rodriguez.race_name, "rodriguez");
    assert_eq!(rodriguez.price, 100_000_000_000_000);
    assert_eq!(rodriguez.basic_damage, 6);
    assert_eq!(rodriguez.basic_hp, 600);
    assert_eq!(rodriguez.basic_move_speed, 5);
    assert_eq!(rodriguez.basic_knockdown_hit, 1);
    let nguyen = svc.get_template(CyborRace::Nguyen);
    assert_eq!(nguyen, CyborTemplate::nguyen());
    assert_eq!(nguyen.race_name, "nguyen");
    assert_ne!(nguyen, rodriguez);
    assert_eq!(lookup(CyborRace::Nguyen), Some(nguyen));
}

#[test]
fn the_not_found_template() {
    let sentinel = resolve(None);
    assert_eq!(sentinel, CyborTemplate::not_found());
    assert_eq!(sentinel.race_name, "NotFound");
    assert_eq!(sentinel.price, 0);
    assert_eq!(sentinel.basic_damage, 0);
    assert_eq!(sentinel.basic_hp, 0);
    assert_eq!(sentinel.basic_move_speed, 0);
    assert_eq!(sentinel.basic_knockdown_hit, 0);
    assert_eq!(sentinel.score_per_block, 0);
    assert_eq!(resolve(Some(CyborTemplate::nguyen())), CyborTemplate::nguyen());
    assert_eq!(CyborTemplate::default().race_name, "");
    assert_eq!(CyborRace::default(), CyborRace::Rodriguez);
}

#[test]
fn fresh_token_reports_the_blocks_that_passed() {
    let mut svc = fresh();
    let a = who(1);
    let token = mint(&mut svc, a, CyborRace::Nguyen, 1_000);
    assert_eq!(svc.cybor_info(&at(a, 0, 1_000), token).exp, 0);
    assert_eq!(svc.cybor_info(&at(a, 0, 1_001), token).exp, 1);
    assert_eq!(svc.cybor_info(&at(who(9), 0, 4_321), token).exp, 3_321);
    assert_eq!(svc.cybor_info(&at(a, 0, u32::MAX), token).exp, (u32::MAX - 1_000) as u128);
}

#[test]
fn report_of_a_cybor() {
    let mut svc = fresh();
    let a = who(1);
    let token = mint(&mut svc, a, CyborRace::Nguyen, 200);
    let info = svc.cybor_info(&at(a, 0, 260), token);
    let template = CyborTemplate::nguyen();
    assert_eq!(
        info,
        CyborStream {
            race_name: "nguyen",
            basic_damage: template.basic_damage,
            basic_hp: template.basic_hp,
            basic_move_speed: template.basic_move_speed,
            basic_knockdown_hit: template.basic_knockdown_hit,
            score_per_block: template.score_per_block,
            is_have_finishing_skill: true,
            mint_at: 200,
            image: String::new(),
            level: 1,
            grade: 1,
            lucky: 1,
            exp: 60,
            is_freeze: true,
        }
    );
}

#[test]
fn report_of_an_unknown_token_is_empty() {
    let svc = fresh();
    let info = svc.cybor_info(&at(who(1), 0, 77), id(100));
    assert_eq!(info, CyborStream::default());
    assert_eq!(info.race_name, "");
    assert_eq!(info.exp, 0);
    assert_eq!(info.level, 0);
    assert!(!info.is_freeze);
    let metadata = svc.cybor_metadata(id(100));
    assert_eq!(metadata, CyborMetadata::default());
    assert_eq!(metadata.race, CyborRace::Rodriguez);
    assert_eq!(metadata.cybor_template, CyborTemplate::default());
    assert_eq!(metadata.mint_at, 0);
    assert!(!metadata.is_have_finishing_skill);
}

#[test]
fn reported_experience_stays_in_range() {
    let mut svc = fresh();
    let a = who(1);
    let token = mint(&mut svc, a, CyborRace::Rodriguez, 500);
    // A query from before the window began reports nothing rather than failing.
    assert_eq!(svc.cybor_info(&at(a, 0, 100), token).exp, 0);
    assert!(svc.unfreeze(&at(a, 0, 700), token).is_ok());
    // With no window running the blocks count from zero.
    assert_eq!(svc.cybor_info(&at(a, 0, 1_000), token).exp, 200 + 1_000);
}

#[test]
fn all_cybors_lists_newest_first() {
    let mut svc = fresh();
    assert!(svc.all_cybors().is_empty());
    let a = who(1);
    let b = who(2);
    let t0 = mint(&mut svc, a, CyborRace::Rodriguez, 10);
    let t1 = mint(&mut svc, b, CyborRace::Nguyen, 20);
    let t2 = mint(&mut svc, a, CyborRace::Nguyen, 30);
    let t3 = mint(&mut svc, b, CyborRace::Rodriguez, 40);
    assert_eq!((t0, t1, t2, t3), (id(100), id(101), id(102), id(103)));
    let all = svc.all_cybors();
    assert_eq!(all.len(), 4);
    let ids: Vec<TokenId> = all.iter().map(|entry| entry.0).collect();
    assert_eq!(ids, vec![t3, t2, t1, t0]);
    let mint_blocks: Vec<u32> = all.iter().map(|entry| entry.1.mint_at).collect();
    assert_eq!(mint_blocks, vec![40, 30, 20, 10]);
    assert_eq!(all[1].1.race, CyborRace::Nguyen);
    assert_eq!(all[1].1.cybor_template, CyborTemplate::nguyen());
    assert_eq!(all[3].1, svc.cybor_metadata(t0));
}

#[test]
fn all_cybors_with_many_tokens() {
    let mut svc = fresh();
    let mut minted: Vec<TokenId> = Vec::new();
    for i in 0..300u32 {
        minted.push(mint(&mut svc, who((i % 5) as u128 + 1), CyborRace::Rodriguez, i));
    }
    minted.reverse();
    let ids: Vec<TokenId> = svc.all_cybors().iter().map(|entry| entry.0).collect();
    assert_eq!(ids, minted);
}

#[test]
fn all_my_cybors_starts_with_the_system_cybor() {
    let mut svc = fresh();
    let a = who(1);
    let b = who(2);
    let nobody = svc.all_my_cybors(&at(a, 0, 5));
    assert_eq!(nobody.len(), 1);
    assert_eq!(nobody[0].0, id(1));
    assert_eq!(
        nobody[0].1,
        CyborStream {
            race_name: "rodriguez",
            basic_damage: 6,
            basic_hp: 600,
            basic_move_speed: 5,
            basic_knockdown_hit: 1,
            score_per_block: 0,
            is_have_finishing_skill: false,
            mint_at: 0,
            image: String::new(),
            level: 1,
            grade: 1,
            lucky: 0,
            exp: 0,
            is_freeze: true,
        }
    );
    assert_eq!(nobody[0].1, CyborStream::system());

    let t0 = mint(&mut svc, a, CyborRace::Rodriguez, 10);
    let _t1 = mint(&mut svc, b, CyborRace::Nguyen, 20);
    let t2 = mint(&mut svc, a, CyborRace::Nguyen, 30);
    let mine = svc.all_my_cybors(&at(a, 0, 50));
    let ids: Vec<TokenId> = mine.iter().map(|entry| entry.0).collect();
    assert_eq!(ids, vec![id(1), t2, t0]);
    assert_eq!(mine[1].1, svc.cybor_info(&at(a, 0, 50), t2));
    assert_eq!(mine[1].1.exp, 20);
    assert_eq!(mine[2].1.exp, 40);
    assert_eq!(mine[2].1.race_name, "rodriguez");

    assert!(svc.burn(&at(a, 0, 60), t2, 0, None).is_ok());
    let left: Vec<TokenId> = svc.all_my_cybors(&at(a, 0, 70)).iter().map(|e| e.0).collect();
    assert_eq!(left, vec![id(1), t0]);
}

#[test]
fn debug_info_snapshot() {
    let mut svc = fresh();
    let a = who(1);
    let b = who(2);
    let t0 = mint(&mut svc, a, CyborRace::Rodriguez, 10);
    let t1 = mint(&mut svc, b, CyborRace::Nguyen, 20);
    let t2 = mint(&mut svc, a, CyborRace::Nguyen, 30);
    let info = svc.debug_info(&at(a, 42, 99), CyborRace::Nguyen);
    assert_eq!(info.source, a);
    assert_eq!(info.value, 42);
    assert_eq!(info.temp, CyborTemplate::nguyen());
    assert_eq!(info.minted_count, 3);
    assert_eq!(info.owner_by_id, vec![(t2, a), (t1, b), (t0, a)]);
    assert_eq!(info.token_group_by_owner_len, 2);
    assert_eq!(info.my_tokens1, vec![t2, t0]);
    assert_eq!(info.my_tokens2, vec![t2, t0]);
    assert_eq!(info.next_token_id, id(103));

    let stranger = svc.debug_info(&at(who(8), 0, 99), CyborRace::Rodriguez);
    assert_eq!(stranger.temp, CyborTemplate::rodriguez());
    assert!(stranger.my_tokens1.is_empty());
    assert!(stranger.my_tokens2.is_empty());
    assert_eq!(stranger.minted_count, 3);
}
