//! The vault-element data model: four structurally different secret kinds
//! behind one storage abstraction. A [`VaultElement`] is the tagged union —
//! the common ownership envelope plus exactly one payload variant — and
//! [`Element`] is the flat record shape of the backing collection, where
//! every variant field is optional and the fields of the other variants are
//! absent. [`VaultElement::to_record`] is the only way a record is built, so
//! no record ever holds fields from more than one variant.

use vstd::prelude::*;

use crate::store::StoreError;

verus! {

/// The flat record stored in the `element` collection: the envelope fields
/// are always present, the variant fields of all but one variant are absent.
pub struct Element {
    pub owner_id: u64,
    pub name: String,
    pub description: String,
    pub favorite: bool,
    pub login: Option<String>,
    pub password: Option<String>,
    pub url: Option<String>,
    pub owners_name: Option<String>,
    pub number: Option<String>,
    pub card_type: Option<String>,
    pub expiry_month: Option<String>,
    pub expiry_year: Option<String>,
    pub security_code: Option<String>,
    pub first_name: Option<String>,
    pub second_name: Option<String>,
    pub last_name: Option<String>,
    pub company: Option<String>,
    pub mail: Option<String>,
    pub telephone: Option<String>,
    pub address_line_1: Option<String>,
    pub address_line_2: Option<String>,
    pub city: Option<String>,
    pub region: Option<String>,
    pub postal_index: Option<String>,
    pub country: Option<String>,
}

/// The payload of a vault element: exactly one of the four secret kinds.
pub enum ElementPayload {
    LoginCredential { login: String, password: String, url: Option<String> },
    PaymentCard {
        owners_name: Option<String>,
        number: Option<String>,
        card_type: Option<String>,
        expiry_month: Option<String>,
        expiry_year: Option<String>,
        security_code: Option<String>,
    },
    PersonalInfo {
        first_name: Option<String>,
        second_name: Option<String>,
        last_name: Option<String>,
        company: Option<String>,
        mail: Option<String>,
        telephone: Option<String>,
        address_line_1: Option<String>,
        address_line_2: Option<String>,
        city: Option<String>,
        region: Option<String>,
        postal_index: Option<String>,
        country: Option<String>,
    },
    Note,
}

/// A secret entry owned by exactly one user: the common envelope and one
/// payload variant.
pub struct VaultElement {
    pub owner_id: u64,
    pub name: String,
    pub description: String,
    pub favorite: bool,
    pub payload: ElementPayload,
}

/// The record that `v` is stored as: the envelope verbatim, the fields of
/// `v`'s own variant populated, every other variant field absent.
pub open spec fn spec_record_of(v: VaultElement) -> Element {
    Element {
        owner_id: v.owner_id,
        name: v.name,
        description: v.description,
        favorite: v.favorite,
        login: match v.payload {
            ElementPayload::LoginCredential { login, .. } => Some(login),
            _ => None,
        },
        password: match v.payload {
            ElementPayload::LoginCredential { password, .. } => Some(password),
            _ => None,
        },
        url: match v.payload {
            ElementPayload::LoginCredential { url, .. } => url,
            _ => None,
        },
        owners_name: match v.payload {
            ElementPayload::PaymentCard { owners_name, .. } => owners_name,
            _ => None,
        },
        number: match v.payload {
            ElementPayload::PaymentCard { number, .. } => number,
            _ => None,
        },
        card_type: match v.payload {
            ElementPayload::PaymentCard { card_type, .. } => card_type,
            _ => None,
        },
        expiry_month: match v.payload {
            ElementPayload::PaymentCard { expiry_month, .. } => expiry_month,
            _ => None,
        },
        expiry_year: match v.payload {
            ElementPayload::PaymentCard { expiry_year, .. } => expiry_year,
            _ => None,
        },
        security_code: match v.payload {
            ElementPayload::PaymentCard { security_code, .. } => security_code,
            _ => None,
        },
        first_name: match v.payload {
            ElementPayload::PersonalInfo { first_name, .. } => first_name,
            _ => None,
        },
        second_name: match v.payload {
            ElementPayload::PersonalInfo { second_name, .. } => second_name,
            _ => None,
        },
        last_name: match v.payload {
            ElementPayload::PersonalInfo { last_name, .. } => last_name,
            _ => None,
        },
        company: match v.payload {
            ElementPayload::PersonalInfo { company, .. } => company,
            _ => None,
        },
        mail: match v.payload {
            ElementPayload::PersonalInfo { mail, .. } => mail,
            _ => None,
        },
        telephone: match v.payload {
            ElementPayload::PersonalInfo { telephone, .. } => telephone,
            _ => None,
        },
        address_line_1: match v.payload {
            ElementPayload::PersonalInfo { address_line_1, .. } => address_line_1,
            _ => None,
        },
        address_line_2: match v.payload {
            ElementPayload::PersonalInfo { address_line_2, .. } => address_line_2,
            _ => None,
        },
        city: match v.payload {
            ElementPayload::PersonalInfo { city, .. } => city,
            _ => None,
        },
        region: match v.payload {
            ElementPayload::PersonalInfo { region, .. } => region,
            _ => None,
        },
        postal_index: match v.payload {
            ElementPayload::PersonalInfo { postal_index, .. } => postal_index,
            _ => None,
        },
        country: match v.payload {
            ElementPayload::PersonalInfo { country, .. } => country,
            _ => None,
        },
    }
}

/// No field of the login-credential variant is present.
pub open spec fn login_fields_absent(e: Element) -> bool {
    e.login is None && e.password is None && e.url is None
}

/// No field of the payment-card variant is present.
pub open spec fn card_fields_absent(e: Element) -> bool {
    e.owners_name is None && e.number is None && e.card_type is None && e.expiry_month is None
        && e.expiry_year is None && e.security_code is None
}

/// No field of the personal-info variant is present.
pub open spec fn personal_fields_absent(e: Element) -> bool {
    e.first_name is None && e.second_name is None && e.last_name is None && e.company is None
        && e.mail is None && e.telephone is None && e.address_line_1 is None && e.address_line_2
        is None && e.city is None && e.region is None && e.postal_index is None && e.country
        is None
}

/// The record invariant of the element collection: no record holds fields
/// from more than one variant.
pub open spec fn record_wf(e: Element) -> bool {
    &&& !login_fields_absent(e) ==> card_fields_absent(e) && personal_fields_absent(e)
    &&& !card_fields_absent(e) ==> login_fields_absent(e) && personal_fields_absent(e)
    &&& !personal_fields_absent(e) ==> login_fields_absent(e) && card_fields_absent(e)
}

/// Every record a vault element is stored as satisfies the record invariant:
/// exactly the fields of the element's own variant are populated, and the
/// other variants' fields are absent.
pub proof fn lemma_record_of_wf(v: VaultElement)
    ensures
        record_wf(spec_record_of(v)),
        v.payload matches ElementPayload::LoginCredential { .. } ==> spec_record_of(v).login
            is Some && spec_record_of(v).password is Some && card_fields_absent(spec_record_of(v))
            && personal_fields_absent(spec_record_of(v)),
        v.payload matches ElementPayload::PaymentCard { .. } ==> login_fields_absent(
            spec_record_of(v),
        ) && personal_fields_absent(spec_record_of(v)),
        v.payload matches ElementPayload::PersonalInfo { .. } ==> login_fields_absent(
            spec_record_of(v),
        ) && card_fields_absent(spec_record_of(v)),
        v.payload matches ElementPayload::Note ==> login_fields_absent(spec_record_of(v))
            && card_fields_absent(spec_record_of(v)) && personal_fields_absent(spec_record_of(v)),
{
}

/// A request to save a login credential.
pub struct DataElementLogin {
    pub name: String,
    pub description: String,
    pub favorite: bool,
    pub login: String,
    pub password: String,
    pub url: Option<String>,
}

/// A request to save a payment card.
pub struct DataElementCard {
    pub name: String,
    pub description: String,
    pub favorite: bool,
    pub owners_name: Option<String>,
    pub number: Option<String>,
    pub card_type: Option<String>,
    pub expiry_month: Option<String>,
    pub expiry_year: Option<String>,
    pub security_code: Option<String>,
}

/// A request to save a free-text note: the envelope alone.
pub struct DataElementNote {
    pub name: String,
    pub description: String,
    pub favorite: bool,
}

/// A request to save a personal-info profile. `folder` is a grouping hint
/// for the caller's presentation layer and is not part of the stored record.
pub struct PersonalElementRequest {
    pub name: String,
    pub description: String,
    pub first_name: Option<String>,
    pub second_name: Option<String>,
    pub last_name: Option<String>,
    pub company: Option<String>,
    pub mail: Option<String>,
    pub telephone: Option<String>,
    pub address_2: Option<String>,
    pub address_1: Option<String>,
    pub city: Option<String>,
    pub region: Option<String>,
    pub index: Option<String>,
    pub country: Option<String>,
    pub folder: Option<String>,
    pub favourite: bool,
}

fn clone_opt(o: &Option<String>) -> (r: Option<String>)
    ensures
        r == o,
{
    match o {
        Some(s) => Some(s.clone()),
        None => None,
    }
}

impl VaultElement {
    /// Builds the flat record this element is stored as.
    pub fn to_record(&self) -> (r: Element)
        ensures
            r == spec_record_of(*self),
    {
        let mut r = Element {
            owner_id: self.owner_id,
            name: self.name.clone(),
            description: self.description.clone(),
            favorite: self.favorite,
            login: None,
            password: None,
            url: None,
            owners_name: None,
            number: None,
            card_type: None,
            expiry_month: None,
            expiry_year: None,
            security_code: None,
            first_name: None,
            second_name: None,
            last_name: None,
            company: None,
            mail: None,
            telephone: None,
            address_line_1: None,
            address_line_2: None,
            city: None,
            region: None,
            postal_index: None,
            country: None,
        };
        match &self.payload {
            ElementPayload::LoginCredential { login, password, url } => {
                r.login = Some(login.clone());
                r.password = Some(password.clone());
                r.url = clone_opt(url);
            },
            ElementPayload::PaymentCard {
                owners_name,
                number,
                card_type,
                expiry_month,
                expiry_year,
                security_code,
            } => {
                r.owners_name = clone_opt(owners_name);
                r.number = clone_opt(number);
                r.card_type = clone_opt(card_type);
                r.expiry_month = clone_opt(expiry_month);
                r.expiry_year = clone_opt(expiry_year);
                r.security_code = clone_opt(security_code);
            },
            ElementPayload::PersonalInfo {
                first_name,
                second_name,
                last_name,
                company,
                mail,
                telephone,
                address_line_1,
                address_line_2,
                city,
                region,
                postal_index,
                country,
            } => {
                r.first_name = clone_opt(first_name);
                r.second_name = clone_opt(second_name);
                r.last_name = clone_opt(last_name);
                r.company = clone_opt(company);
                r.mail = clone_opt(mail);
                r.telephone = clone_opt(telephone);
                r.address_line_1 = clone_opt(address_line_1);
                r.address_line_2 = clone_opt(address_line_2);
                r.city = clone_opt(city);
                r.region = clone_opt(region);
                r.postal_index = clone_opt(postal_index);
                r.country = clone_opt(country);
            },
            ElementPayload::Note => {},
        }
        r
    }
}

/// The element record collection. Each `add_element_<kind>` call is an
/// independent insert under the caller-supplied owner: the owner id comes
/// from the authenticated caller, never from the request body.
pub struct VaultElementStore {
    pub elements: Vec<Element>,
}

impl View for VaultElementStore {
    type V = Seq<Element>;

    open spec fn view(&self) -> Seq<Element> {
        self.elements@
    }
}

impl VaultElementStore {
    /// The collection's invariant: every stored record satisfies the record
    /// invariant — no record holds fields from more than one variant.
    pub open spec fn wf(self) -> bool {
        forall|i: int| 0 <= i < self@.len() ==> record_wf(#[trigger] self@[i])
    }

    pub fn new() -> (r: Self)
        ensures
            r@ == Seq::<Element>::empty(),
            r.wf(),
    {
        VaultElementStore { elements: Vec::new() }
    }

    /// Pushes the record of `v`, keeping the collection invariant.
    fn insert_record(&mut self, v: VaultElement)
        requires
            old(self).wf(),
        ensures
            final(self).wf(),
            final(self)@ == old(self)@.push(spec_record_of(v)),
    {
        let record = v.to_record();
        self.elements.push(record);
        proof {
            lemma_record_of_wf(v);
            assert forall|i: int| 0 <= i < self@.len() implies record_wf(
                #[trigger] self@[i],
            ) by {
                if i < old(self)@.len() {
                    assert(self@[i] == old(self)@[i]);
                } else {
                    assert(self@[i] == spec_record_of(v));
                }
            }
        }
    }

    /// Persists a login credential: exactly the login, password and url are
    /// populated besides the envelope.
    pub fn add_element_login(&mut self, element: &DataElementLogin, id_user: u64) -> (r: Result<
        (),
        StoreError,
    >)
        requires
            old(self).wf(),
        ensures
            final(self).wf(),
            r == Ok::<(), StoreError>(()),
            final(self)@ == old(self)@.push(
                spec_record_of(
                    VaultElement {
                        owner_id: id_user,
                        name: element.name,
                        description: element.description,
                        favorite: element.favorite,
                        payload: ElementPayload::LoginCredential {
                            login: element.login,
                            password: element.password,
                            url: element.url,
                        },
                    },
                ),
            ),
    {
        let v = VaultElement {
            owner_id: id_user,
            name: element.name.clone(),
            description: element.description.clone(),
            favorite: element.favorite,
            payload: ElementPayload::LoginCredential {
                login: element.login.clone(),
                password: element.password.clone(),
                url: clone_opt(&element.url),
            },
        };
        self.insert_record(v);
        Ok(())
    }

    /// Persists a payment card: only card fields are populated besides the
    /// envelope; login, password and url are absent.
    pub fn add_element_card(&mut self, element: &DataElementCard, id_user: u64) -> (r: Result<
        (),
        StoreError,
    >)
        requires
            old(self).wf(),
        ensures
            final(self).wf(),
            r == Ok::<(), StoreError>(()),
            final(self)@ == old(self)@.push(
                spec_record_of(
                    VaultElement {
                        owner_id: id_user,
                        name: element.name,
                        description: element.description,
                        favorite: element.favorite,
                        payload: ElementPayload::PaymentCard {
                            owners_name: element.owners_name,
                            number: element.number,
                            card_type: element.card_type,
                            expiry_month: element.expiry_month,
                            expiry_year: element.expiry_year,
                            security_code: element.security_code,
                        },
                    },
                ),
            ),
    {
        let v = VaultElement {
            owner_id: id_user,
            name: element.name.clone(),
            description: element.description.clone(),
            favorite: element.favorite,
            payload: ElementPayload::PaymentCard {
                owners_name: clone_opt(&element.owners_name),
                number: clone_opt(&element.number),
                card_type: clone_opt(&element.card_type),
                expiry_month: clone_opt(&element.expiry_month),
                expiry_year: clone_opt(&element.expiry_year),
                security_code: clone_opt(&element.security_code),
            },
        };
        self.insert_record(v);
        Ok(())
    }

    /// Persists a personal-info profile: only personal fields are populated
    /// besides the envelope. The `folder` hint is not stored.
    pub fn add_element_personal_information(
        &mut self,
        element: &PersonalElementRequest,
        id_user: u64,
    ) -> (r: Result<(), StoreError>)
        requires
            old(self).wf(),
        ensures
            final(self).wf(),
            r == Ok::<(), StoreError>(()),
            final(self)@ == old(self)@.push(
                spec_record_of(
                    VaultElement {
                        owner_id: id_user,
                        name: element.name,
                        description: element.description,
                        favorite: element.favourite,
                        payload: ElementPayload::PersonalInfo {
                            first_name: element.first_name,
                            second_name: element.second_name,
                            last_name: element.last_name,
                            company: element.company,
                            mail: element.mail,
                            telephone: element.telephone,
                            address_line_1: element.address_1,
                            address_line_2: element.address_2,
                            city: element.city,
                            region: element.region,
                            postal_index: element.index,
                            country: element.country,
                        },
                    },
                ),
            ),
    {
        let v = VaultElement {
            owner_id: id_user,
            name: element.name.clone(),
            description: element.description.clone(),
            favorite: element.favourite,
            payload: ElementPayload::PersonalInfo {
                first_name: clone_opt(&element.first_name),
                second_name: clone_opt(&element.second_name),
                last_name: clone_opt(&element.last_name),
                company: clone_opt(&element.company),
                mail: clone_opt(&element.mail),
                telephone: clone_opt(&element.telephone),
                address_line_1: clone_opt(&element.address_1),
                address_line_2: clone_opt(&element.address_2),
                city: clone_opt(&element.city),
                region: clone_opt(&element.region),
                postal_index: clone_opt(&element.index),
                country: clone_opt(&element.country),
            },
        };
        self.insert_record(v);
        Ok(())
    }

    /// Persists a note: the envelope alone, every variant field absent.
    pub fn add_element_note(&mut self, element: &DataElementNote, id_user: u64) -> (r: Result<
        (),
        StoreError,
    >)
        requires
            old(self).wf(),
        ensures
            final(self).wf(),
            r == Ok::<(), StoreError>(()),
            final(self)@ == old(self)@.push(
                spec_record_of(
                    VaultElement {
                        owner_id: id_user,
                        name: element.name,
                        description: element.description,
                        favorite: element.favorite,
                        payload: ElementPayload::Note,
                    },
                ),
            ),
    {
        let v = VaultElement {
            owner_id: id_user,
            name: element.name.clone(),
            description: element.description.clone(),
            favorite: element.favorite,
            payload: ElementPayload::Note,
        };
        self.insert_record(v);
        Ok(())
    }
}

} // verus!
