//! Player build data received from the client.
use vstd::prelude::*;

verus! {

#[derive(Debug, Clone, Default)]
pub struct EngravingData {
    pub id: u32,
    pub name: Option<String>,
    pub icon: Option<String>,
}

#[derive(Debug, Clone, Default)]
pub struct ArkPassiveData {
    pub evolution: Option<Vec<ArkPassiveNode>>,
    pub enlightenment: Option<Vec<ArkPassiveNode>>,
    pub leap: Option<Vec<ArkPassiveNode>>,
}

#[derive(Debug, Clone, Copy, Default, PartialEq, Eq, Structural)]
pub struct ArkPassiveNode {
    pub id: u32,
    pub lv: u8,
}

} // verus!
