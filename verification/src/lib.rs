//! Circuit gadgets for the BN254 base field and its quadratic and sextic
//! extensions, with machine-checked correctness of every gadget. A circuit is
//! a list of word-level gates, each computing one base-field operation on
//! bundles of 254 wires; the gadgets for `Fq2` and `Fq6` are built from them.
pub mod bits;
pub mod certificate;
pub mod circuit;
pub mod field;
pub mod fq;
pub mod fq2;
pub mod fq6;
pub mod laws;
pub mod tower;
pub mod value;
pub mod prime;
