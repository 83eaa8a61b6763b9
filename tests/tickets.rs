use pact_ledger::tickets::{check_ticket_close, has_mod_role, may_open_ticket, CloseCheck};

const TICKET_CHANNEL: u64 = 500;
const TICKET_CATEGORY: u64 = 900;

fn mods() -> Vec<u64> {
    vec![11, 22]
}

#[test]
fn moderator_closes_ticket_in_category() {
    let roles = vec![3, 22];
    let r = check_ticket_close(Some(&roles), &mods(), 77, Some(TICKET_CATEGORY), TICKET_CHANNEL, TICKET_CATEGORY);
    assert_eq!(r, CloseCheck::Allowed);
}

#[test]
fn ticket_close_refusals() {
    let moderator = vec![11];
    let plain = vec![1, 2, 3];
    assert_eq!(
        check_ticket_close(None, &mods(), 77, Some(TICKET_CATEGORY), TICKET_CHANNEL, TICKET_CATEGORY),
        CloseCheck::UnknownMember
    );
    assert_eq!(
        check_ticket_close(Some(&plain), &mods(), 77, Some(TICKET_CATEGORY), TICKET_CHANNEL, TICKET_CATEGORY),
        CloseCheck::NoPermission
    );
    assert_eq!(
        check_ticket_close(Some(&moderator), &mods(), TICKET_CHANNEL, None, TICKET_CHANNEL, TICKET_CATEGORY),
        CloseCheck::ProtectedChannel
    );
    assert_eq!(
        check_ticket_close(Some(&moderator), &mods(), 77, None, TICKET_CHANNEL, TICKET_CATEGORY),
        CloseCheck::NoCategory
    );
    assert_eq!(
        check_ticket_close(Some(&moderator), &mods(), 77, Some(901), TICKET_CHANNEL, TICKET_CATEGORY),
        CloseCheck::WrongCategory
    );
}

#[test]
fn mod_role_lookup() {
    assert!(has_mod_role(&vec![5, 22], &mods()));
    assert!(!has_mod_role(&vec![5, 6], &mods()));
    assert!(!has_mod_role(&vec![], &mods()));
    assert!(!has_mod_role(&vec![11], &vec![]));
}

#[test]
fn tickets_open_only_in_their_channel() {
    assert!(may_open_ticket(TICKET_CHANNEL, TICKET_CHANNEL));
    assert!(!may_open_ticket(TICKET_CHANNEL + 1, TICKET_CHANNEL));
}
