//! Master data: free-form settings held as key and value texts.

use vstd::prelude::*;
use vstd::string::*;

use crate::error::AppError;

verus! {

/// Entries of the master data that order creation reads.
#[derive(Clone, Copy, Debug, PartialEq, Eq, Structural)]
pub enum MasterDataKey {
    MaxOrderQuantity,
    TaxRate,
    ShippingFee,
}

/// The key under which an entry is stored.
pub open spec fn key_text(key: MasterDataKey) -> Seq<char> {
    match key {
        MasterDataKey::MaxOrderQuantity => "max_order_quantity"@,
        MasterDataKey::TaxRate => "tax_rate"@,
        MasterDataKey::ShippingFee => "shipping_fee"@,
    }
}

impl MasterDataKey {
    /// The key under which the entry is stored.
    pub fn name(&self) -> (s: &'static str)
        ensures
            s@ == key_text(*self),
    {
        match self {
            MasterDataKey::MaxOrderQuantity => "max_order_quantity",
            MasterDataKey::TaxRate => "tax_rate",
            MasterDataKey::ShippingFee => "shipping_fee",
        }
    }
}


/// One master data entry.
#[derive(Debug)]
pub struct MasterDataEntry {
    pub key: String,
    pub value: String,
}

/// A request to set an entry to `value`.
#[derive(Debug)]
pub struct SetMasterDataRequest {
    pub value: String,
}

impl SetMasterDataRequest {
    /// Refuses an empty value.
    pub fn validate(&self) -> (res: Result<(), AppError>)
        ensures
            self.value@.len() > 0 ==> res is Ok,
            self.value@.len() == 0 ==> (res matches Err(AppError::BadRequest(m)) && m@
                == "Master data value must not be empty"@),
    {
        if self.value.as_str().is_empty() {
            return Err(AppError::BadRequest(String::from_str("Master data value must not be empty")));
        }
        Ok(())
    }
}

/// The entries for the pairs that the store lists, in the same order.
pub fn entries_from_pairs(pairs: &Vec<(String, String)>) -> (res: Vec<MasterDataEntry>)
    ensures
        res@.len() == pairs@.len(),
        forall|i: int|
            0 <= i < pairs@.len() ==> #[trigger] res@[i].key@ == pairs@[i].0@ && res@[i].value@
                == pairs@[i].1@,
{
    let mut res: Vec<MasterDataEntry> = Vec::new();
    let mut i: usize = 0;
    while i < pairs.len()
        invariant
            i <= pairs@.len(),
            res@.len() == i,
            forall|j: int|
                0 <= j < i ==> #[trigger] res@[j].key@ == pairs@[j].0@ && res@[j].value@
                    == pairs@[j].1@,
        decreases pairs@.len() - i,
    {
        let key = pairs[i].0.clone();
        let value = pairs[i].1.clone();
        res.push(MasterDataEntry { key, value });
        i = i + 1;
    }
    res
}

/// The answer to reading the entry `key`: the entry where it is set,
/// `NotFound` where it is not, the store's error where reading failed.
pub fn entry_lookup(key: String, found: Result<Option<String>, AppError>) -> (res: Result<
    MasterDataEntry,
    AppError,
>)
    ensures
        found matches Ok(Some(v)) ==> (res matches Ok(entry) && entry.key == key && entry.value
            == v),
        found matches Ok(None) ==> (res matches Err(AppError::NotFound(m)) && m@ == "Master data '"@
            + key@ + "' not found"@),
        found matches Err(e) ==> res == Err::<MasterDataEntry, AppError>(e),
{
    match found {
        Ok(Some(value)) => Ok(MasterDataEntry { key, value }),
        Ok(None) => {
            let mut m = String::from_str("Master data '");
            m.append(key.as_str());
            m.append("' not found");
            Err(AppError::NotFound(m))
        },
        Err(e) => Err(e),
    }
}

} // verus!
