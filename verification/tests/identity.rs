use swiftchain_contracts::identity::IdentityReputationContract;
use swiftchain_contracts::types::{Address, SwiftChainError};

fn address(strkey: &str) -> Address {
    Address::new(strkey.to_string())
}

fn admin() -> Address {
    address("GBADMINADMINADMINADMINADMINADMINADMINADMINADMINADMINADMI")
}

fn user_a() -> Address {
    address("GCUSERAUSERAUSERAUSERAUSERAUSERAUSERAUSERAUSERAUSERAUSE")
}

fn user_b() -> Address {
    address("GDUSERBUSERBUSERBUSERBUSERBUSERBUSERBUSERBUSERBUSERBUSE")
}

fn setup_env() -> IdentityReputationContract {
    IdentityReputationContract::new()
}

#[test]
fn test_register_user_success() {
    let mut client = setup_env();
    let now: u64 = 0;
    client.init(admin()).unwrap();

    let user = user_a();
    client.register_user(user.clone(), now).unwrap();

    let profile = client.get_user_profile(&user).unwrap();
    assert_eq!(profile.address, user);
    assert_eq!(profile.registered_at, now);
}

#[test]
fn test_register_user_duplicate() {
    let mut client = setup_env();
    client.init(admin()).unwrap();

    let user = user_a();
    client.register_user(user.clone(), 0).unwrap();

    let result = client.register_user(user.clone(), 0);
    match result {
        Err(err) => assert_eq!(err, SwiftChainError::AlreadyInitialized),
        _ => panic!("Expected duplicate user registration to panic with AlreadyInitialized"),
    }
}

#[test]
fn test_get_user_profile_not_found() {
    let mut client = setup_env();
    client.init(admin()).unwrap();

    let user = user_a();
    let result = client.get_user_profile(&user);
    match result {
        Err(err) => assert_eq!(err, SwiftChainError::ProviderNotFound),
        _ => panic!("Expected missing user profile to return ProviderNotFound"),
    }
}

#[test]
fn get_admin_before_init_is_not_initialized() {
    let client = setup_env();
    assert_eq!(client.get_admin(), Err(SwiftChainError::NotInitialized));
}

#[test]
fn init_then_get_admin_returns_admin() {
    let mut client = setup_env();
    assert_eq!(client.init(admin()), Ok(()));
    assert_eq!(client.get_admin(), Ok(&admin()));
}

#[test]
fn second_init_is_refused_and_keeps_first_admin() {
    let mut client = setup_env();
    client.init(admin()).unwrap();
    assert_eq!(client.init(user_a()), Err(SwiftChainError::AlreadyInitialized));
    assert_eq!(client.get_admin(), Ok(&admin()));
}

#[test]
fn registration_does_not_need_init_and_does_not_set_admin() {
    let mut client = setup_env();
    assert_eq!(client.register_user(user_a(), 42), Ok(()));
    assert_eq!(client.get_admin(), Err(SwiftChainError::NotInitialized));
    assert_eq!(client.get_user_profile(&user_a()).unwrap().registered_at, 42);
}

#[test]
fn duplicate_registration_keeps_first_time() {
    let mut client = setup_env();
    client.register_user(user_a(), 100).unwrap();
    assert_eq!(client.register_user(user_a(), 200), Err(SwiftChainError::AlreadyInitialized));
    let profile = client.get_user_profile(&user_a()).unwrap();
    assert_eq!(profile.address, user_a());
    assert_eq!(profile.registered_at, 100);
}

#[test]
fn registering_one_user_keeps_the_others() {
    let mut client = setup_env();
    client.register_user(user_a(), 5).unwrap();
    assert_eq!(client.get_user_profile(&user_b()), Err(SwiftChainError::ProviderNotFound));
    client.register_user(user_b(), 9).unwrap();
    assert_eq!(client.get_user_profile(&user_a()).unwrap().registered_at, 5);
    assert_eq!(client.get_user_profile(&user_b()).unwrap().registered_at, 9);
    assert_eq!(client.get_user_profile(&user_b()).unwrap().address, user_b());
}

#[test]
fn address_keeps_its_text_and_compares_by_it() {
    let a = user_a();
    assert_eq!(a.as_str(), "GCUSERAUSERAUSERAUSERAUSERAUSERAUSERAUSERAUSERAUSERAUSE");
    assert!(a.same_as(&user_a()));
    assert!(!a.same_as(&user_b()));
}

#[test]
fn stored_times_do_not_exceed_a_later_ledger_time() {
    let mut client = setup_env();
    client.init(admin()).unwrap();
    client.register_user(user_a(), 10).unwrap();
    client.register_user(user_b(), 20).unwrap();
    assert_eq!(client.register_user(user_a(), 30), Err(SwiftChainError::AlreadyInitialized));
    let later: u64 = 30;
    for user in [user_a(), user_b()] {
        let profile = client.get_user_profile(&user).unwrap();
        assert_eq!(profile.address, user);
        assert!(profile.registered_at <= later);
    }
    assert_eq!(client.get_user_profile(&user_a()).unwrap().registered_at, 10);
}
