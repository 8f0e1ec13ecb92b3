use vstd::prelude::*;

pub mod bus;
pub mod bytes;
pub mod cfgfile;
pub mod chip;
pub mod cis;
pub mod cmd;
pub mod error;
pub mod fdrv;
pub mod firmware;
pub mod fw_load;
pub mod ieee80211;
pub mod init;
pub mod lmac;
pub mod mmc;
pub mod sdhci;
pub mod skb;
pub mod txq;

verus! {

} // verus!
