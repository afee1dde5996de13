use vstd::prelude::*;

use crate::identity::Identity;

verus! {

/// The mathematical value of a [`Config`] record.
pub ghost struct ConfigView {
    pub name: Seq<char>,
    pub symbol: Seq<char>,
    pub admin: Seq<u8>,
    pub token_address: Seq<u8>,
    pub token_code_hash: Seq<char>,
}

/// The store's identity record: its name and symbol, the administrator
/// allowed to mutate it, and the token registry the metadata belongs
/// to.  Written once at initialization; only the admin field ever
/// changes afterwards.
pub struct Config {
    pub name: String,
    pub symbol: String,
    pub admin: Identity,
    pub token_address: Identity,
    pub token_code_hash: String,
}

impl View for Config {
    type V = ConfigView;

    open spec fn view(&self) -> ConfigView {
        ConfigView {
            name: self.name@,
            symbol: self.symbol@,
            admin: self.admin@,
            token_address: self.token_address@,
            token_code_hash: self.token_code_hash@,
        }
    }
}

} // verus!
