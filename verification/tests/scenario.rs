use herehere::auth::AccessRule;
use herehere::auth::Account;
use herehere::auth::Credential;
use herehere::auth::OwnerRole;
use herehere::custody::Bucket;
use herehere::error::Error;
use herehere::here::Here;
use scrypto::constants::XRD;
use scrypto::math::Decimal;
use scrypto::types::ComponentAddress;
use scrypto::types::ResourceAddress;

fn dec(text: &str) -> Decimal {
    Decimal::try_from(text).unwrap()
}

fn badge(n: u8) -> ResourceAddress {
    let mut raw = [0u8; 30];
    raw[0] = 154;
    raw[29] = n;
    ResourceAddress::new_or_panic(raw)
}

fn component(n: u8) -> ComponentAddress {
    let mut raw = [0u8; 30];
    raw[0] = 192;
    raw[29] = n;
    ComponentAddress::new_or_panic(raw)
}

fn account(n: u8) -> ComponentAddress {
    let mut raw = [0u8; 30];
    raw[0] = 193;
    raw[29] = n;
    ComponentAddress::new_or_panic(raw)
}

fn voter(n: u8) -> Account {
    Account { address: account(n), owner_role: OwnerRole::Fixed(AccessRule::Require(badge(n))) }
}

#[test]
fn raise_the_bridge() {
    let start: i64 = 1_700_000_000;
    let hour: i64 = 3600;
    let voter_a: u8 = 1;
    let voter_b: u8 = 2;
    let voter_c: u8 = 3;

    let mut here = Here::instantiate_here(badge(200), account(100), component(1));
    assert_eq!(here.cost(), Decimal::from(69));
    assert_eq!(here.vote_cost(), dec("6.9"));

    let payment = Bucket::new(XRD, Decimal::from(100));
    assert!(here.can_create(&payment));
    let created = here
        .create_vote(
            account(50),
            String::from("Raise the bridge?"),
            start + hour,
            badge(60),
            payment,
            component(2),
            account(101),
        )
        .unwrap();
    assert_eq!(created.change.amount(), Decimal::from(31));
    assert_eq!(here.custody(), Decimal::from(69));
    let mut poll = created.vote;
    assert_eq!(poll.statement(), "Raise the bridge?");
    assert_eq!(poll.home_component(), here.here_component());
    assert!(poll.belongs_to(&here));

    let fee = Bucket::new(XRD, dec("6.9"));
    assert!(here.has_room(&fee) && poll.has_room(true));
    let cast = poll.vote(
        &mut here,
        voter(voter_a),
        true,
        fee,
        &Credential { resource: badge(voter_a) },
        start + 60,
    );
    assert_eq!(cast, Ok(()));
    assert_eq!(here.custody(), dec("75.9"));
    assert_eq!(poll.aye_votes(), 1);
    assert_eq!(poll.aye_time(&account(voter_a)), Some(start + 60));
    assert_eq!(poll.aye_time(&account(voter_b)), None);
    assert_eq!(poll.aye_time(&account(voter_c)), None);

    let again = poll.vote(
        &mut here,
        voter(voter_a),
        true,
        Bucket::new(XRD, dec("6.9")),
        &Credential { resource: badge(voter_a) },
        start + 120,
    );
    assert_eq!(again, Err(Error::AlreadyVoted));
    assert_eq!(here.custody(), dec("75.9"));

    let seven = Bucket::new(XRD, Decimal::from(7));
    assert!(here.has_room(&seven) && poll.has_room(false));
    let cast = poll.vote(
        &mut here,
        voter(voter_b),
        false,
        seven,
        &Credential { resource: badge(voter_b) },
        start + 180,
    );
    assert_eq!(cast, Ok(()));
    assert_eq!(here.custody(), dec("82.9"));
    assert_eq!(poll.no_votes(), 1);
    assert_eq!(poll.aye_votes(), 1);

    let late = poll.vote(
        &mut here,
        voter(voter_c),
        true,
        Bucket::new(XRD, dec("6.9")),
        &Credential { resource: badge(voter_c) },
        start + hour,
    );
    assert_eq!(late, Err(Error::VotingClosed));
    assert_eq!(here.custody(), dec("82.9"));
    assert_eq!(poll.aye_votes(), 1);
    assert_eq!(poll.no_votes(), 1);
    assert!(!poll.has_voted(&account(voter_c)));
}
