//! What the frontend is told about the library location and about one asset's
//! file.

use vstd::prelude::*;

use crate::library_location::{LibraryAvailability, LibraryLocationError, LibraryStatusSnapshot};

verus! {

/// The library status as the settings window receives it.
#[derive(Debug, PartialEq, Eq)]
pub struct LibraryStatusDto {
    pub location_label: String,
    pub is_default: bool,
    pub availability: LibraryAvailability,
}

impl From<LibraryStatusSnapshot> for LibraryStatusDto {
    fn from(status: LibraryStatusSnapshot) -> (dto: Self) {
        LibraryStatusDto {
            location_label: status.location_label,
            is_default: status.is_default,
            availability: status.availability,
        }
    }
}

impl vstd::std_specs::convert::FromSpecImpl<LibraryStatusSnapshot> for LibraryStatusDto {
    open spec fn obeys_from_spec() -> bool {
        true
    }

    open spec fn from_spec(status: LibraryStatusSnapshot) -> Self {
        LibraryStatusDto {
            location_label: status.location_label,
            is_default: status.is_default,
            availability: status.availability,
        }
    }
}

/// Whether an asset's file can be opened.
#[derive(Debug, Clone, Copy, PartialEq, Eq, Structural)]
pub enum AssetAvailability {
    Ready,
    Missing,
    Unreadable,
}

/// An asset's availability as the frontend receives it.
#[derive(Debug, Clone, Copy, PartialEq, Eq)]
pub struct AssetAvailabilityDto {
    pub status: &'static str,
}

/// The status word for an asset: its own availability while the library is
/// usable, `libraryUnavailable` while the library is missing or moving; any
/// other library failure is passed on.
pub open spec fn spec_availability_status(library: Result<AssetAvailability, LibraryLocationError>) -> Result<Seq<char>, LibraryLocationError> {
    match library {
        Ok(AssetAvailability::Ready) => Ok("ready"@),
        Ok(AssetAvailability::Missing) => Ok("missing"@),
        Ok(AssetAvailability::Unreadable) => Ok("unreadable"@),
        Err(LibraryLocationError::Unavailable) => Ok("libraryUnavailable"@),
        Err(LibraryLocationError::Migrating) => Ok("libraryUnavailable"@),
        Err(error) => Err(error),
    }
}

/// Reports an asset's availability, given the asset's own availability or the
/// reason the library could not be used.
pub fn asset_availability_dto(library: Result<AssetAvailability, LibraryLocationError>) -> (dto: Result<AssetAvailabilityDto, LibraryLocationError>)
    ensures
        match spec_availability_status(library) {
            Ok(status) => dto matches Ok(d) && d.status@ == status,
            Err(error) => dto == Err::<AssetAvailabilityDto, LibraryLocationError>(error),
        },
{
    let status = match library {
        Ok(AssetAvailability::Ready) => "ready",
        Ok(AssetAvailability::Missing) => "missing",
        Ok(AssetAvailability::Unreadable) => "unreadable",
        Err(LibraryLocationError::Unavailable) => "libraryUnavailable",
        Err(LibraryLocationError::Migrating) => "libraryUnavailable",
        Err(error) => return Err(error),
    };
    Ok(AssetAvailabilityDto { status })
}

} // verus!
