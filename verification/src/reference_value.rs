//! The data entity of the catalog: a named, versioned expected-measurement
//! record, judged against TEE evidence by the remote evaluation engine.

use vstd::prelude::*;

verus! {

/// Mathematical content of a [`ReferenceValue`].
pub ghost struct RvView {
    pub name: Seq<char>,
    pub version: u64,
    pub value: Seq<Seq<char>>,
    pub expiration: i64,
}

/// A named, versioned expected-measurement record.
///
/// `name` is the unique key under which the store holds the record,
/// `version` increases monotonically per name under the provisioner's
/// policy, `value` holds the accepted digest strings, and `expiration` is
/// the timestamp (seconds) after which the record must not be trusted.
#[derive(Debug, PartialEq, Eq)]
pub struct ReferenceValue {
    pub name: String,
    pub version: u64,
    pub value: Vec<String>,
    pub expiration: i64,
}

impl View for ReferenceValue {
    type V = RvView;

    open spec fn view(&self) -> RvView {
        RvView {
            name: self.name@,
            version: self.version,
            value: self.value.deep_view(),
            expiration: self.expiration,
        }
    }
}

impl Clone for ReferenceValue {
    fn clone(&self) -> (r: Self)
        ensures
            r@ == self@,
    {
        let value = self.value.clone();
        proof {
            assert forall|i: int| 0 <= i < self.value@.len() implies value@[i] == self.value@[i] by {
                assert(cloned::<String>(self.value@[i], value@[i]));
            }
            assert(value@ =~= self.value@);
            assert(value.deep_view() =~= self.value.deep_view());
        }
        ReferenceValue {
            name: self.name.clone(),
            version: self.version,
            value,
            expiration: self.expiration,
        }
    }
}

} // verus!
