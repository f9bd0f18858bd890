//! The mod loaders.

use vstd::prelude::*;
use crate::error::{DecodeError};

verus! {

/// The mod loader that a file is built for.
#[derive(Clone, Copy, Debug, PartialEq, Eq, Structural)]
pub enum ModLoaderType {
    Any,
    Forge,
    Cauldron,
    LiteLoader,
    Fabric,
    Quilt,
    NeoForge,
}

impl ModLoaderType {
    /// The wire code of a variant.
    pub open spec fn wire(self) -> u64 {
        match self {
            ModLoaderType::Any => 0,
            ModLoaderType::Forge => 1,
            ModLoaderType::Cauldron => 2,
            ModLoaderType::LiteLoader => 3,
            ModLoaderType::Fabric => 4,
            ModLoaderType::Quilt => 5,
            ModLoaderType::NeoForge => 6,
        }
    }

    /// The variant that a wire code stands for; a code outside the table
    /// is a failure, never a default.
    pub open spec fn of_wire(code: u64) -> Result<ModLoaderType, DecodeError> {
        if code == 0 {
            Ok(ModLoaderType::Any)
        } else if code == 1 {
            Ok(ModLoaderType::Forge)
        } else if code == 2 {
            Ok(ModLoaderType::Cauldron)
        } else if code == 3 {
            Ok(ModLoaderType::LiteLoader)
        } else if code == 4 {
            Ok(ModLoaderType::Fabric)
        } else if code == 5 {
            Ok(ModLoaderType::Quilt)
        } else if code == 6 {
            Ok(ModLoaderType::NeoForge)
        } else {
            Err(DecodeError::UnrecognizedCode { value: code, enum_name: "ModLoaderType" })
        }
    }

    pub fn encode(&self) -> (code: u64)
        ensures
            code == self.wire(),
    {
        match self {
            ModLoaderType::Any => 0,
            ModLoaderType::Forge => 1,
            ModLoaderType::Cauldron => 2,
            ModLoaderType::LiteLoader => 3,
            ModLoaderType::Fabric => 4,
            ModLoaderType::Quilt => 5,
            ModLoaderType::NeoForge => 6,
        }
    }

    pub fn decode(code: u64) -> (r: Result<ModLoaderType, DecodeError>)
        ensures
            r == Self::of_wire(code),
    {
        match code {
            0 => Ok(ModLoaderType::Any),
            1 => Ok(ModLoaderType::Forge),
            2 => Ok(ModLoaderType::Cauldron),
            3 => Ok(ModLoaderType::LiteLoader),
            4 => Ok(ModLoaderType::Fabric),
            5 => Ok(ModLoaderType::Quilt),
            6 => Ok(ModLoaderType::NeoForge),
            _ => Err(DecodeError::UnrecognizedCode { value: code, enum_name: "ModLoaderType" }),
        }
    }

    /// Every variant has a code, and decoding that code gives the variant
    /// back.
    pub proof fn lemma_code_round_trip(v: ModLoaderType)
        ensures
            Self::of_wire(v.wire()) == Ok::<ModLoaderType, DecodeError>(v),
    {
    }

    /// A code decodes to the one variant that has it, and every other
    /// code is reported with its value and the enumeration's name.
    pub proof fn lemma_decode_exact(code: u64)
        ensures
            match Self::of_wire(code) {
                Ok(v) => v.wire() == code,
                Err(e) => e == (DecodeError::UnrecognizedCode { value: code, enum_name: "ModLoaderType" })
                    && forall|v: ModLoaderType| v.wire() != code,
            },
    {
    }
}

} // verus!
