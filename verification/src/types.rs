//! Plain data carried across the query boundary: the asset-supply triple and
//! the node version report. The caller's query layer fills these from chain
//! state; only `Supply` takes part in the binary codec.

use vstd::prelude::*;

use crate::enc::EncodeError;
use crate::enc::HiveEncode;
use crate::enc::HiveEncoderImpl;

verus! {

/// An asset amount in the chain's self-describing form: a decimal amount
/// string, an explicit precision, and the network asset id.
#[derive(Debug, Clone)]
pub struct Supply {
    pub amount: String,
    pub precision: u32,
    pub nai: String,
}

impl HiveEncode for Supply {
    open spec fn enc_ok(&self) -> bool {
        true
    }

    open spec fn enc(&self) -> Seq<u8> {
        self.amount.enc() + self.precision.enc() + self.nai.enc()
    }

    fn encode(&self, encoder: &mut HiveEncoderImpl) -> (r: Result<(), EncodeError>) {
        self.amount.encode(encoder)?;
        self.precision.encode(encoder)?;
        self.nai.encode(encoder)?;
        proof {
            assert(old(encoder)@ + self.amount.enc() + self.precision.enc() + self.nai.enc() =~= old(
                encoder,
            )@ + self.enc());
        }
        Ok(())
    }
}

/// A node's version report.
#[derive(Debug, Clone)]
pub struct Version {
    pub blockchain_version: String,
    pub hive_revision: String,
    pub fc_revision: String,
    pub chain_id: String,
}

} // verus!
