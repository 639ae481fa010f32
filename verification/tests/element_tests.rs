use passvault::element::{
    DataElementCard, DataElementLogin, DataElementNote, PersonalElementRequest, VaultElementStore,
};

fn login_data() -> DataElementLogin {
    DataElementLogin {
        name: "Bank".to_string(),
        description: "checking account".to_string(),
        favorite: true,
        login: "a".to_string(),
        password: "p".to_string(),
        url: Some("https://b".to_string()),
    }
}

#[test]
fn add_element_login_persists_only_login_fields() {
    let mut store = VaultElementStore::new();
    assert!(store.add_element_login(&login_data(), 42).is_ok());
    assert_eq!(store.elements.len(), 1);
    let record = &store.elements[0];
    assert_eq!(record.owner_id, 42);
    assert_eq!(record.name, "Bank");
    assert_eq!(record.description, "checking account");
    assert!(record.favorite);
    assert_eq!(record.login.as_deref(), Some("a"));
    assert_eq!(record.password.as_deref(), Some("p"));
    assert_eq!(record.url.as_deref(), Some("https://b"));
    assert!(record.owners_name.is_none());
    assert!(record.number.is_none());
    assert!(record.card_type.is_none());
    assert!(record.expiry_month.is_none());
    assert!(record.expiry_year.is_none());
    assert!(record.security_code.is_none());
    assert!(record.first_name.is_none());
    assert!(record.second_name.is_none());
    assert!(record.last_name.is_none());
    assert!(record.company.is_none());
    assert!(record.mail.is_none());
    assert!(record.telephone.is_none());
    assert!(record.address_line_1.is_none());
    assert!(record.address_line_2.is_none());
    assert!(record.city.is_none());
    assert!(record.region.is_none());
    assert!(record.postal_index.is_none());
    assert!(record.country.is_none());
}

#[test]
fn add_element_card_persists_only_card_fields() {
    let mut store = VaultElementStore::new();
    let card = DataElementCard {
        name: "Visa".to_string(),
        description: "personal card".to_string(),
        favorite: false,
        owners_name: Some("Ada Lovelace".to_string()),
        number: Some("4111111111111111".to_string()),
        card_type: Some("credit".to_string()),
        expiry_month: Some("12".to_string()),
        expiry_year: Some("2031".to_string()),
        security_code: Some("042".to_string()),
    };
    assert!(store.add_element_card(&card, 7).is_ok());
    assert_eq!(store.elements.len(), 1);
    let record = &store.elements[0];
    assert_eq!(record.owner_id, 7);
    assert_eq!(record.name, "Visa");
    assert!(record.login.is_none());
    assert!(record.password.is_none());
    assert!(record.url.is_none());
    assert_eq!(record.owners_name.as_deref(), Some("Ada Lovelace"));
    assert_eq!(record.number.as_deref(), Some("4111111111111111"));
    assert_eq!(record.card_type.as_deref(), Some("credit"));
    assert_eq!(record.expiry_month.as_deref(), Some("12"));
    assert_eq!(record.expiry_year.as_deref(), Some("2031"));
    assert_eq!(record.security_code.as_deref(), Some("042"));
    assert!(record.first_name.is_none());
    assert!(record.country.is_none());
}

#[test]
fn add_element_personal_information_persists_only_personal_fields() {
    let mut store = VaultElementStore::new();
    let personal = PersonalElementRequest {
        name: "Me".to_string(),
        description: "home address".to_string(),
        first_name: Some("Ada".to_string()),
        second_name: None,
        last_name: Some("Lovelace".to_string()),
        company: None,
        mail: Some("ada@example.org".to_string()),
        telephone: None,
        address_2: Some("flat 3".to_string()),
        address_1: Some("12 Analytical Row".to_string()),
        city: Some("London".to_string()),
        region: None,
        index: Some("N1 7AA".to_string()),
        country: Some("UK".to_string()),
        folder: Some("identity".to_string()),
        favourite: true,
    };
    assert!(store.add_element_personal_information(&personal, 9).is_ok());
    assert_eq!(store.elements.len(), 1);
    let record = &store.elements[0];
    assert_eq!(record.owner_id, 9);
    assert_eq!(record.name, "Me");
    assert!(record.favorite);
    assert!(record.login.is_none());
    assert!(record.password.is_none());
    assert!(record.url.is_none());
    assert!(record.owners_name.is_none());
    assert!(record.number.is_none());
    assert_eq!(record.first_name.as_deref(), Some("Ada"));
    assert!(record.second_name.is_none());
    assert_eq!(record.last_name.as_deref(), Some("Lovelace"));
    assert_eq!(record.mail.as_deref(), Some("ada@example.org"));
    assert_eq!(record.address_line_1.as_deref(), Some("12 Analytical Row"));
    assert_eq!(record.address_line_2.as_deref(), Some("flat 3"));
    assert_eq!(record.city.as_deref(), Some("London"));
    assert_eq!(record.postal_index.as_deref(), Some("N1 7AA"));
    assert_eq!(record.country.as_deref(), Some("UK"));
}

#[test]
fn add_element_note_persists_the_envelope_alone() {
    let mut store = VaultElementStore::new();
    let note = DataElementNote {
        name: "Reminder".to_string(),
        description: "rotate the vault password".to_string(),
        favorite: false,
    };
    assert!(store.add_element_note(&note, 3).is_ok());
    assert_eq!(store.elements.len(), 1);
    let record = &store.elements[0];
    assert_eq!(record.owner_id, 3);
    assert_eq!(record.name, "Reminder");
    assert_eq!(record.description, "rotate the vault password");
    assert!(!record.favorite);
    assert!(record.login.is_none());
    assert!(record.password.is_none());
    assert!(record.url.is_none());
    assert!(record.owners_name.is_none());
    assert!(record.security_code.is_none());
    assert!(record.first_name.is_none());
    assert!(record.country.is_none());
}

#[test]
fn elements_of_different_owners_accumulate_independently() {
    let mut store = VaultElementStore::new();
    assert!(store.add_element_login(&login_data(), 1).is_ok());
    assert!(store.add_element_login(&login_data(), 2).is_ok());
    assert_eq!(store.elements.len(), 2);
    assert_eq!(store.elements[0].owner_id, 1);
    assert_eq!(store.elements[1].owner_id, 2);
}
