use crowdfund::{Campaign, CrowdfundContract, CrowdfundError};

fn s(v: &str) -> String {
    v.to_string()
}

fn fresh() -> CrowdfundContract {
    let mut c = CrowdfundContract::new();
    c.init();
    c
}

fn open(c: &mut CrowdfundContract, target: i128, deadline: u64) -> u32 {
    c.create(s("GCREATOR"), s("T"), s("D"), target, deadline, true).unwrap()
}

fn raised(c: &CrowdfundContract, id: u32) -> i128 {
    c.get_campaign(id).unwrap().raised
}

#[test]
fn new_store_counts_zero_before_init() {
    let c = CrowdfundContract::new();
    assert_eq!(c.get_count(), 0);
    assert_eq!(c.get_campaign(0).unwrap_err(), CrowdfundError::NotFound);
}

#[test]
fn created_campaign_holds_given_fields() {
    let mut c = fresh();
    let id = c
        .create(s("GALICE"), s("Title"), s("Description"), 750, 42, true)
        .unwrap();
    let got = c.get_campaign(id).unwrap();
    assert_eq!(got.creator, "GALICE");
    assert_eq!(got.title, "Title");
    assert_eq!(got.desc, "Description");
    assert_eq!(got.target, 750);
    assert_eq!(got.deadline, 42);
    assert_eq!(got.raised, 0);
    assert!(!got.claimed);
}

#[test]
fn reads_repeat_and_change_nothing() {
    let mut c = fresh();
    open(&mut c, 1000, 100);
    c.donate(0, 250, 10, true).unwrap();
    let a = c.get_campaign(0).unwrap();
    let b = c.get_campaign(0).unwrap();
    assert_eq!((a.raised, a.target, a.claimed), (b.raised, b.target, b.claimed));
    assert_eq!(a.title, b.title);
    assert_eq!(c.get_count(), c.get_count());
    assert_eq!(c.get_count(), 1);
}

#[test]
fn ids_increase_from_zero() {
    let mut c = fresh();
    let ids: Vec<u32> = (0..5).map(|_| open(&mut c, 10, 10)).collect();
    assert_eq!(ids, vec![0, 1, 2, 3, 4]);
    assert_eq!(c.get_count(), 5);
}

#[test]
fn identical_creates_give_distinct_campaigns() {
    let mut c = fresh();
    let a = open(&mut c, 10, 10);
    let b = open(&mut c, 10, 10);
    assert_eq!(b, a + 1);
    assert!(c.get_campaign(a).is_ok());
    assert!(c.get_campaign(b).is_ok());
}

#[test]
fn sequenced_donations_add_up() {
    let mut c = fresh();
    open(&mut c, 1000, 100);
    c.donate(0, 100, 1, true).unwrap();
    c.donate(0, 200, 2, true).unwrap();
    assert_eq!(raised(&c, 0), 300);
}

#[test]
fn exact_fill_then_target_reached() {
    let mut c = fresh();
    open(&mut c, 1000, 100);
    c.donate(0, 400, 1, true).unwrap();
    assert_eq!(c.donate(0, 600, 1, true), Ok(()));
    assert_eq!(raised(&c, 0), 1000);
    assert_eq!(c.donate(0, 1, 1, true), Err(CrowdfundError::TargetReached));
    assert_eq!(raised(&c, 0), 1000);
}

#[test]
fn overshoot_is_refused_and_leaves_raised() {
    let mut c = fresh();
    open(&mut c, 1000, 100);
    c.donate(0, 900, 1, true).unwrap();
    assert_eq!(c.donate(0, 101, 1, true), Err(CrowdfundError::WouldExceedTarget));
    assert_eq!(raised(&c, 0), 900);
    assert_eq!(c.donate(0, 100, 1, true), Ok(()));
}

#[test]
fn huge_donation_is_refused_without_overflow() {
    let mut c = fresh();
    open(&mut c, i128::MAX, 100);
    c.donate(0, 10, 1, true).unwrap();
    assert_eq!(
        c.donate(0, i128::MAX, 1, true),
        Err(CrowdfundError::WouldExceedTarget)
    );
    assert_eq!(raised(&c, 0), 10);
}

#[test]
fn donation_at_deadline_is_accepted_and_after_it_refused() {
    let mut c = fresh();
    open(&mut c, 1000, 50);
    assert_eq!(c.donate(0, 10, 50, true), Ok(()));
    assert_eq!(c.donate(0, 10, 51, true), Err(CrowdfundError::CampaignEnded));
    assert_eq!(raised(&c, 0), 10);
}

#[test]
fn claim_needs_time_past_deadline() {
    let mut c = fresh();
    open(&mut c, 1000, 50);
    assert_eq!(c.claim(0, 49, true), Err(CrowdfundError::CampaignStillActive));
    assert_eq!(c.claim(0, 50, true), Err(CrowdfundError::CampaignStillActive));
    assert_eq!(c.claim(0, 51, true), Ok(()));
    assert!(c.get_campaign(0).unwrap().claimed);
}

#[test]
fn second_claim_is_refused() {
    let mut c = fresh();
    open(&mut c, 1000, 50);
    c.donate(0, 300, 10, true).unwrap();
    assert_eq!(c.claim(0, 60, true), Ok(()));
    assert_eq!(raised(&c, 0), 300);
    assert_eq!(c.claim(0, 61, true), Err(CrowdfundError::AlreadyClaimed));
    assert_eq!(raised(&c, 0), 300);
    assert!(c.get_campaign(0).unwrap().claimed);
}

#[test]
fn already_claimed_comes_before_still_active() {
    let mut c = fresh();
    open(&mut c, 1000, 50);
    c.claim(0, 60, true).unwrap();
    assert_eq!(c.claim(0, 10, true), Err(CrowdfundError::AlreadyClaimed));
}

#[test]
fn claim_does_not_require_target_reached() {
    let mut c = fresh();
    open(&mut c, 1000, 50);
    c.donate(0, 1, 10, true).unwrap();
    assert_eq!(c.claim(0, 51, true), Ok(()));
}

#[test]
fn unknown_id_is_not_found_everywhere() {
    let mut c = fresh();
    open(&mut c, 1000, 50);
    assert_eq!(c.get_campaign(7).unwrap_err(), CrowdfundError::NotFound);
    assert_eq!(c.donate(7, 10, 1, true), Err(CrowdfundError::NotFound));
    assert_eq!(c.claim(7, 100, true), Err(CrowdfundError::NotFound));
}

#[test]
fn unauthorized_calls_are_refused() {
    let mut c = fresh();
    assert_eq!(
        c.create(s("GX"), s("T"), s("D"), 10, 10, false),
        Err(CrowdfundError::Unauthorized)
    );
    assert_eq!(c.get_count(), 0);
    open(&mut c, 1000, 50);
    assert_eq!(c.donate(0, 10, 1, false), Err(CrowdfundError::Unauthorized));
    assert_eq!(c.claim(0, 60, false), Err(CrowdfundError::Unauthorized));
    assert_eq!(raised(&c, 0), 0);
    assert!(!c.get_campaign(0).unwrap().claimed);
}

#[test]
fn donate_guards_come_in_order() {
    let mut c = fresh();
    open(&mut c, 1000, 50);
    // authorization before the amount, the amount before the lookup
    assert_eq!(c.donate(9, 0, 99, false), Err(CrowdfundError::Unauthorized));
    assert_eq!(c.donate(9, 0, 99, true), Err(CrowdfundError::InvalidAmount));
    assert_eq!(c.donate(9, -5, 99, true), Err(CrowdfundError::InvalidAmount));
    assert_eq!(c.donate(9, 5, 99, true), Err(CrowdfundError::NotFound));
    // the deadline before the target
    c.donate(0, 1000, 1, true).unwrap();
    assert_eq!(c.donate(0, 5, 99, true), Err(CrowdfundError::CampaignEnded));
    assert_eq!(c.donate(0, 5, 1, true), Err(CrowdfundError::TargetReached));
}

#[test]
fn claim_looks_up_before_authorizing() {
    let mut c = fresh();
    assert_eq!(c.claim(3, 60, false), Err(CrowdfundError::NotFound));
}

#[test]
fn zero_target_campaign_takes_no_donation() {
    let mut c = fresh();
    open(&mut c, 0, 50);
    assert_eq!(c.donate(0, 1, 1, true), Err(CrowdfundError::TargetReached));
    assert_eq!(raised(&c, 0), 0);
}

#[test]
fn reinit_reuses_ids_and_overwrites() {
    let mut c = fresh();
    open(&mut c, 1000, 50);
    c.donate(0, 500, 1, true).unwrap();
    c.init();
    assert_eq!(c.get_count(), 0);
    assert_eq!(raised(&c, 0), 500);
    let id = c
        .create(s("GOTHER"), s("New"), s("Again"), 20, 5, true)
        .unwrap();
    assert_eq!(id, 0);
    let got = c.get_campaign(0).unwrap();
    assert_eq!(got.creator, "GOTHER");
    assert_eq!(got.raised, 0);
}

#[test]
fn end_to_end_scenario() {
    let now: u64 = 1_000;
    let mut c = CrowdfundContract::new();
    c.init();
    let id = c
        .create(s("GCREATOR"), s("T"), s("D"), 1_000_000_000, now + 86400, true)
        .unwrap();
    assert_eq!(id, 0);
    c.donate(0, 100_000_000, now, true).unwrap();
    assert_eq!(raised(&c, 0), 100_000_000);
    let later = now + 86400 + 1;
    assert_eq!(c.claim(0, later, true), Ok(()));
    assert!(c.get_campaign(0).unwrap().claimed);
    assert_eq!(c.claim(0, later, true), Err(CrowdfundError::AlreadyClaimed));
}

#[test]
fn restore_loads_only_well_formed_records() {
    let mut c = CrowdfundContract::restore(3);
    assert_eq!(c.get_count(), 3);
    let good = Campaign::open(s("GC"), s("T"), s("D"), 100, 10);
    assert!(c.load_campaign(2, good));
    let mut bad = Campaign::open(s("GC"), s("T"), s("D"), 100, 10);
    bad.raised = 101;
    assert!(!c.load_campaign(1, bad));
    let mut negative = Campaign::open(s("GC"), s("T"), s("D"), 100, 10);
    negative.raised = -1;
    assert!(!c.load_campaign(1, negative));
    assert_eq!(c.get_campaign(1).unwrap_err(), CrowdfundError::NotFound);
    c.donate(2, 40, 5, true).unwrap();
    assert_eq!(raised(&c, 2), 40);
    assert_eq!(open(&mut c, 5, 5), 3);
}

#[test]
fn record_level_guards() {
    let mut r = Campaign::open(s("GC"), s("T"), s("D"), 100, 10);
    assert_eq!(r.accept_donation(100, 10), Ok(()));
    assert_eq!(r.raised, 100);
    assert_eq!(r.accept_donation(1, 10), Err(CrowdfundError::TargetReached));
    assert_eq!(r.accept_claim(10), Err(CrowdfundError::CampaignStillActive));
    assert_eq!(r.accept_claim(11), Ok(()));
    assert!(r.claimed);
    let copy = r.duplicate();
    assert_eq!((copy.raised, copy.claimed, copy.creator), (100, true, s("GC")));
}
