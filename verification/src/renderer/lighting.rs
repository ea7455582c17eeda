//! Fog model selection.

use vstd::prelude::*;

verus! {

/// Fog falloff model.
#[derive(Debug, Clone, Copy, PartialEq, Eq)]
pub enum FogType {
    Linear,
    Exponential,
    ExponentialSquared,
    Height,
}

impl FogType {
    /// Display name of the model.
    pub fn as_str(&self) -> (s: &'static str)
        ensures
            s@ == (match *self {
                FogType::Linear => "Linear"@,
                FogType::Exponential => "Exponential"@,
                FogType::ExponentialSquared => "Exp Squared"@,
                FogType::Height => "Height"@,
            }),
    {
        match self {
            FogType::Linear => "Linear",
            FogType::Exponential => "Exponential",
            FogType::ExponentialSquared => "Exp Squared",
            FogType::Height => "Height",
        }
    }

    /// Every model, in declaration order.
    pub fn all() -> (a: [FogType; 4])
        ensures
            a@ == seq![FogType::Linear, FogType::Exponential, FogType::ExponentialSquared, FogType::Height],
    {
        let a = [FogType::Linear, FogType::Exponential, FogType::ExponentialSquared, FogType::Height];
        assert(a@ =~= seq![FogType::Linear, FogType::Exponential, FogType::ExponentialSquared, FogType::Height]);
        a
    }
}

} // verus!
