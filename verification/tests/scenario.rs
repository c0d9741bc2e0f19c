use peer_name_service::registry::PeerName;
use peer_name_service::types::{AccountId, Error};

const A0: AccountId = [0xA0; 32];
const M0: AccountId = [0xB0; 32];
const O1: AccountId = [0x01; 32];
const O2: AccountId = [0x02; 32];
const R1: AccountId = [0x11; 32];
const R2: AccountId = [0x12; 32];
const R3: AccountId = [0x13; 32];

#[test]
fn shop_changes_hands_and_its_sub_names_follow() {
    let mut registry = PeerName::default(A0, M0);

    assert!(registry.register_domain(M0, b"shop".to_vec(), O1, R1).is_ok());
    assert_eq!(registry.owner(b"shop".to_vec()), Some(O1));

    assert!(registry.set_sub_domain(O1, b"shop".to_vec(), b"us".to_vec(), R2).is_ok());
    assert_eq!(registry.subdomain_resolver(b"shop".to_vec(), b"us".to_vec()), Some(R2));

    assert!(registry.transfer_domain_ownership(O1, b"shop".to_vec(), O2).is_ok());
    assert_eq!(registry.owner(b"shop".to_vec()), Some(O2));

    assert!(registry.set_sub_domain(O2, b"shop".to_vec(), b"eu".to_vec(), R3).is_ok());
    assert!(registry
        .update_subdomain_resolver(O2, b"shop".to_vec(), R3, b"us".to_vec())
        .is_ok());
    assert_eq!(registry.subdomain_resolver(b"shop".to_vec(), b"us".to_vec()), Some(R3));

    assert_eq!(
        registry.set_sub_domain(O1, b"shop".to_vec(), b"asia".to_vec(), R1),
        Err(Error::UnauthorizedCaller)
    );
    assert_eq!(
        registry.update_subdomain_resolver(O1, b"shop".to_vec(), R1, b"us".to_vec()),
        Err(Error::UnauthorizedCaller)
    );
    assert_eq!(registry.subdomain_resolver(b"shop".to_vec(), b"us".to_vec()), Some(R3));
    assert!(!registry.is_subdomain_exist(b"shop".to_vec(), b"asia".to_vec()));
}
