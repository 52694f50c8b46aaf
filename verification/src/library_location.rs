//! Availability of the managed asset library and the decisions around moving
//! it: whether the library may be used, when a migration or a search for a
//! missing library may start, and when a prepared location may replace the
//! current one. Paths and file work stay with the caller.

use vstd::prelude::*;

verus! {

broadcast use vstd::string::group_string_axioms;

/// Name of the directory that holds a managed library.
pub const MANAGED_LIBRARY_DIRECTORY_NAME: &'static str = "Kiri Library";

/// Whether the library can be used right now.
#[derive(Debug, Clone, Copy, PartialEq, Eq, Structural)]
pub enum LibraryAvailability {
    Ready,
    Unavailable,
    Migrating,
}

/// What the settings window shows about the library location.
#[derive(Debug, PartialEq, Eq)]
pub struct LibraryStatusSnapshot {
    pub location_label: String,
    pub is_default: bool,
    pub availability: LibraryAvailability,
}

/// Why a library operation was refused.
#[derive(Debug, Clone, Copy, PartialEq, Eq, Structural)]
pub enum LibraryLocationError {
    Unavailable,
    Migrating,
    InvalidLibrary,
    InvalidDestination,
    LibraryIdentityMismatch,
    LibraryGenerationMismatch,
}

/// The identity of the library a migration starts from.
#[derive(Debug, Clone, Copy, PartialEq, Eq, Structural)]
pub struct LibraryMigrationIdentity {
    pub library_id: u128,
    pub generation: u128,
}

/// The availability state of the library context. Ids are UUIDs as 128-bit
/// integers; generation zero is the nil UUID of a library from before
/// generations existed.
#[derive(Debug, Clone, Copy, PartialEq, Eq, Structural)]
pub struct LibraryAvailabilityState {
    pub availability: LibraryAvailability,
    pub has_library: bool,
    pub library_id: u128,
    pub generation: u128,
}

/// What `retry` has to do.
#[derive(Debug, Clone, Copy, PartialEq, Eq, Structural)]
pub enum RetryDecision {
    /// The library is already usable.
    AlreadyReady,
    /// A migration or search is in progress.
    Blocked,
    /// Reopen the library; `legacy` libraries get a generation first.
    Reopen { legacy: bool },
}

/// The state after a ready library failed its storage check (marker identity
/// and directory layout, judged by the caller) or lost its generation.
pub open spec fn spec_refreshed(state: LibraryAvailabilityState, storage_ok: bool) -> LibraryAvailabilityState {
    if state.availability == LibraryAvailability::Ready && (state.generation == 0 || !storage_ok || !state.has_library) {
        LibraryAvailabilityState { availability: LibraryAvailability::Unavailable, has_library: false, ..state }
    } else {
        state
    }
}

/// Whether the library may be used in `state`, and why not.
pub open spec fn spec_access(state: LibraryAvailabilityState) -> Result<(), LibraryLocationError> {
    match state.availability {
        LibraryAvailability::Ready => if state.has_library {
            Ok(())
        } else {
            Err(LibraryLocationError::Unavailable)
        },
        LibraryAvailability::Unavailable => Err(LibraryLocationError::Unavailable),
        LibraryAvailability::Migrating => Err(LibraryLocationError::Migrating),
    }
}

/// `state` with only its availability changed.
pub open spec fn with_availability(state: LibraryAvailabilityState, availability: LibraryAvailability) -> LibraryAvailabilityState {
    LibraryAvailabilityState { availability, ..state }
}

/// `state` after its library was (re)opened at `generation`.
pub open spec fn spec_reopened(state: LibraryAvailabilityState, generation: u128) -> LibraryAvailabilityState {
    LibraryAvailabilityState {
        availability: LibraryAvailability::Ready,
        has_library: true,
        library_id: state.library_id,
        generation,
    }
}

/// The availability after a cancelled migration: ready again when the
/// library is still open, unavailable otherwise.
pub open spec fn spec_cancelled(state: LibraryAvailabilityState) -> LibraryAvailabilityState {
    if state.availability == LibraryAvailability::Migrating {
        LibraryAvailabilityState {
            availability: if state.has_library { LibraryAvailability::Ready } else { LibraryAvailability::Unavailable },
            ..state
        }
    } else {
        state
    }
}

impl LibraryAvailabilityState {
    /// A context whose library opened (or did not) at `library_id`/`generation`.
    pub fn opened(library_id: u128, generation: u128, has_library: bool) -> (state: Self)
        ensures
            state.library_id == library_id,
            state.generation == generation,
            state.has_library == has_library,
            state.availability == if has_library { LibraryAvailability::Ready } else { LibraryAvailability::Unavailable },
    {
        LibraryAvailabilityState {
            availability: if has_library { LibraryAvailability::Ready } else { LibraryAvailability::Unavailable },
            has_library,
            library_id,
            generation,
        }
    }

    /// Marks a ready library unavailable when its storage no longer checks out.
    pub fn refresh(&mut self, storage_ok: bool)
        ensures
            *final(self) == spec_refreshed(*old(self), storage_ok),
    {
        if self.availability == LibraryAvailability::Ready && (self.generation == 0 || !storage_ok || !self.has_library) {
            self.availability = LibraryAvailability::Unavailable;
            self.has_library = false;
        }
    }

    /// Whether the library may be used now.
    pub fn access(&self) -> (result: Result<(), LibraryLocationError>)
        ensures
            result == spec_access(*self),
    {
        match self.availability {
            LibraryAvailability::Ready => if self.has_library {
                Ok(())
            } else {
                Err(LibraryLocationError::Unavailable)
            },
            LibraryAvailability::Unavailable => Err(LibraryLocationError::Unavailable),
            LibraryAvailability::Migrating => Err(LibraryLocationError::Migrating),
        }
    }

    /// The status shown in settings, after the storage check.
    pub fn status(&mut self, storage_ok: bool, location_label: String, is_default: bool) -> (status: LibraryStatusSnapshot)
        ensures
            *final(self) == spec_refreshed(*old(self), storage_ok),
            status.availability == final(self).availability,
            status.location_label == location_label,
            status.is_default == is_default,
    {
        self.refresh(storage_ok);
        LibraryStatusSnapshot { location_label, is_default, availability: self.availability }
    }

    /// Starts moving a usable library with a generation; the library is
    /// `Migrating` until the move is activated or cancelled.
    pub fn begin_migration(&mut self) -> (result: Result<LibraryMigrationIdentity, LibraryLocationError>)
        ensures
            match spec_access(*old(self)) {
                Err(e) => result == Err::<LibraryMigrationIdentity, LibraryLocationError>(e) && *final(self) == *old(self),
                Ok(()) => if old(self).generation == 0 {
                    result == Err::<LibraryMigrationIdentity, LibraryLocationError>(LibraryLocationError::LibraryGenerationMismatch)
                        && *final(self) == *old(self)
                } else {
                    result matches Ok(identity) && identity.library_id == old(self).library_id
                        && identity.generation == old(self).generation
                        && *final(self) == with_availability(*old(self), LibraryAvailability::Migrating)
                },
            },
    {
        self.access()?;
        if self.generation == 0 {
            return Err(LibraryLocationError::LibraryGenerationMismatch);
        }
        self.availability = LibraryAvailability::Migrating;
        Ok(LibraryMigrationIdentity { library_id: self.library_id, generation: self.generation })
    }

    /// Ends a migration without moving: ready again if the library is open.
    pub fn cancel_migration(&mut self)
        ensures
            *final(self) == spec_cancelled(*old(self)),
    {
        if self.availability == LibraryAvailability::Migrating {
            self.availability = if self.has_library { LibraryAvailability::Ready } else { LibraryAvailability::Unavailable };
        }
    }

    /// Checks a prepared location before it is persisted: a migration must be
    /// in progress, and the prepared library must have this library's id and
    /// have been copied from its current generation. A mismatch cancels the
    /// migration.
    pub fn check_prepared(&mut self, library_id: u128, expected_generation: u128) -> (result: Result<(), LibraryLocationError>)
        ensures
            old(self).availability != LibraryAvailability::Migrating ==> result == Err::<(), LibraryLocationError>(LibraryLocationError::Unavailable)
                && *final(self) == *old(self),
            old(self).availability == LibraryAvailability::Migrating && library_id != old(self).library_id
                ==> result == Err::<(), LibraryLocationError>(LibraryLocationError::LibraryIdentityMismatch)
                && *final(self) == spec_cancelled(*old(self)),
            old(self).availability == LibraryAvailability::Migrating && library_id == old(self).library_id
                && expected_generation != old(self).generation
                ==> result == Err::<(), LibraryLocationError>(LibraryLocationError::LibraryGenerationMismatch)
                && *final(self) == spec_cancelled(*old(self)),
            old(self).availability == LibraryAvailability::Migrating && library_id == old(self).library_id
                && expected_generation == old(self).generation ==> result is Ok && *final(self) == *old(self),
    {
        if self.availability != LibraryAvailability::Migrating {
            return Err(LibraryLocationError::Unavailable);
        }
        if library_id != self.library_id {
            self.cancel_migration();
            return Err(LibraryLocationError::LibraryIdentityMismatch);
        }
        if expected_generation != self.generation {
            self.cancel_migration();
            return Err(LibraryLocationError::LibraryGenerationMismatch);
        }
        Ok(())
    }

    /// Concludes an activation once the caller tried to persist the new
    /// location: on success the prepared library at `generation` is ready,
    /// otherwise the migration is cancelled.
    pub fn finish_activation(&mut self, persisted: bool, generation: u128)
        requires
            old(self).availability == LibraryAvailability::Migrating,
        ensures
            persisted ==> *final(self) == spec_reopened(*old(self), generation),
            !persisted ==> *final(self) == spec_cancelled(*old(self)),
    {
        if persisted {
            self.generation = generation;
            self.has_library = true;
            self.availability = LibraryAvailability::Ready;
        } else {
            self.cancel_migration();
        }
    }

    /// Starts looking for a missing library; only an unavailable library can
    /// be located.
    pub fn begin_locating(&mut self) -> (result: Result<(), LibraryLocationError>)
        ensures
            old(self).availability == LibraryAvailability::Migrating ==> result == Err::<(), LibraryLocationError>(LibraryLocationError::Migrating) && *final(self) == *old(self),
            old(self).availability == LibraryAvailability::Ready ==> result == Err::<(), LibraryLocationError>(LibraryLocationError::InvalidDestination) && *final(self) == *old(self),
            old(self).availability == LibraryAvailability::Unavailable ==> result is Ok
                && *final(self) == with_availability(*old(self), LibraryAvailability::Migrating),
    {
        if self.availability == LibraryAvailability::Migrating {
            return Err(LibraryLocationError::Migrating);
        }
        if self.availability == LibraryAvailability::Ready {
            return Err(LibraryLocationError::InvalidDestination);
        }
        self.availability = LibraryAvailability::Migrating;
        Ok(())
    }

    /// Ends a search for the library without a result.
    pub fn cancel_locating(&mut self)
        ensures
            old(self).availability == LibraryAvailability::Migrating ==> *final(self) == with_availability(*old(self), LibraryAvailability::Unavailable),
            old(self).availability != LibraryAvailability::Migrating ==> *final(self) == *old(self),
    {
        if self.availability == LibraryAvailability::Migrating {
            self.availability = LibraryAvailability::Unavailable;
        }
    }

    /// What a retry has to do.
    pub fn retry_decision(&self) -> (decision: RetryDecision)
        ensures
            self.availability == LibraryAvailability::Ready ==> decision == RetryDecision::AlreadyReady,
            self.availability == LibraryAvailability::Migrating ==> decision == RetryDecision::Blocked,
            self.availability == LibraryAvailability::Unavailable ==> (decision matches RetryDecision::Reopen { legacy }
                && legacy == (self.generation == 0)),
    {
        match self.availability {
            LibraryAvailability::Ready => RetryDecision::AlreadyReady,
            LibraryAvailability::Migrating => RetryDecision::Blocked,
            LibraryAvailability::Unavailable => RetryDecision::Reopen { legacy: self.generation == 0 },
        }
    }

    /// Records a successful reopen at `generation`.
    pub fn finish_retry(&mut self, generation: u128)
        requires
            old(self).availability == LibraryAvailability::Unavailable,
        ensures
            *final(self) == spec_reopened(*old(self), generation),
    {
        self.generation = generation;
        self.has_library = true;
        self.availability = LibraryAvailability::Ready;
    }
}

/// A cancelled migration leaves a usable library exactly as it was.
pub proof fn lemma_cancelled_migration_restores(state: LibraryAvailabilityState)
    requires
        spec_access(state) is Ok,
        state.generation != 0,
    ensures
        spec_cancelled(with_availability(state, LibraryAvailability::Migrating)) == state,
{
}

/// While a migration or search runs, the library cannot be used and no
/// other migration or search can start.
pub proof fn lemma_migrating_is_exclusive(state: LibraryAvailabilityState)
    requires
        state.availability == LibraryAvailability::Migrating,
    ensures
        spec_access(state) == Err::<(), LibraryLocationError>(LibraryLocationError::Migrating),
        spec_refreshed(state, false) == state,
{
}

/// A ready library that passes its storage check and has a generation stays
/// ready; one that fails it becomes unavailable and closed.
pub proof fn lemma_refresh(state: LibraryAvailabilityState, storage_ok: bool)
    requires
        state.availability == LibraryAvailability::Ready,
        state.has_library,
    ensures
        (storage_ok && state.generation != 0) ==> spec_refreshed(state, storage_ok) == state,
        !(storage_ok && state.generation != 0) ==> spec_access(spec_refreshed(state, storage_ok)) == Err::<(), LibraryLocationError>(LibraryLocationError::Unavailable),
{
}

/// Schema of the location config that records a copy generation.
pub const LOCATION_SCHEMA_VERSION: u32 = 2;
/// Schema of the library marker that records a copy generation.
pub const MARKER_SCHEMA_VERSION: u32 = 2;
/// Schema of configs and markers from before copy generations.
pub const LEGACY_SCHEMA_VERSION: u32 = 1;
/// File name of the remembered library location.
pub const LOCATION_CONFIG_FILENAME: &'static str = "library-location.json";

/// The identity a library marker records. Ids are UUIDs as 128-bit integers;
/// zero is the nil UUID.
#[derive(Debug, Clone, Copy, PartialEq, Eq, Structural)]
pub struct LibraryMarker {
    pub schema_version: u32,
    pub library_id: u128,
    pub generation: u128,
}

/// A legacy record has no generation, a current one has one; the library id
/// is never nil.
pub open spec fn spec_identity_record_ok(schema_version: u32, current_schema: u32, library_id: u128, generation: u128) -> bool {
    library_id != 0 && ((schema_version == LEGACY_SCHEMA_VERSION && generation == 0) || (schema_version
        == current_schema && generation != 0))
}

/// The generation a marker vouches for (nil for a legacy marker), or why
/// the marker is not a Kiri library's.
pub fn validated_marker_generation(marker: &LibraryMarker) -> (generation: Result<u128, LibraryLocationError>)
    ensures
        spec_identity_record_ok(marker.schema_version, MARKER_SCHEMA_VERSION, marker.library_id, marker.generation)
            ==> generation == Ok::<u128, LibraryLocationError>(marker.generation),
        !spec_identity_record_ok(marker.schema_version, MARKER_SCHEMA_VERSION, marker.library_id, marker.generation)
            ==> generation == Err::<u128, LibraryLocationError>(LibraryLocationError::InvalidLibrary),
{
    if marker.library_id == 0 {
        return Err(LibraryLocationError::InvalidLibrary);
    }
    if marker.schema_version == LEGACY_SCHEMA_VERSION && marker.generation == 0 {
        Ok(0)
    } else if marker.schema_version == MARKER_SCHEMA_VERSION && marker.generation != 0 {
        Ok(marker.generation)
    } else {
        Err(LibraryLocationError::InvalidLibrary)
    }
}

/// Checks a remembered library location: its id, its schema with or without
/// a generation, and that its root is an absolute path.
pub fn validate_stored_location(schema_version: u32, library_id: u128, generation: u128, root_is_absolute: bool) -> (result: Result<(), LibraryLocationError>)
    ensures
        (root_is_absolute && spec_identity_record_ok(schema_version, LOCATION_SCHEMA_VERSION, library_id, generation))
            ==> result is Ok,
        !(root_is_absolute && spec_identity_record_ok(schema_version, LOCATION_SCHEMA_VERSION, library_id, generation))
            ==> result == Err::<(), LibraryLocationError>(LibraryLocationError::InvalidLibrary),
{
    if library_id == 0 || !root_is_absolute {
        return Err(LibraryLocationError::InvalidLibrary);
    }
    if (schema_version == LEGACY_SCHEMA_VERSION && generation == 0) || (schema_version == LOCATION_SCHEMA_VERSION
        && generation != 0) {
        Ok(())
    } else {
        Err(LibraryLocationError::InvalidLibrary)
    }
}

/// A library opened for a remembered generation must carry exactly that
/// generation, and a nil generation is never accepted.
pub fn check_marker_generation(expected_generation: u128, found_generation: u128) -> (result: Result<(), LibraryLocationError>)
    ensures
        (expected_generation != 0 && found_generation == expected_generation) ==> result is Ok,
        !(expected_generation != 0 && found_generation == expected_generation)
            ==> result == Err::<(), LibraryLocationError>(LibraryLocationError::LibraryGenerationMismatch),
{
    if expected_generation == 0 || found_generation != expected_generation {
        Err(LibraryLocationError::LibraryGenerationMismatch)
    } else {
        Ok(())
    }
}

/// `Path::parent` then `Path::file_name` of `root`, as text. Paths are read
/// with the target platform's path syntax.
pub uninterp spec fn path_parent_name(root: Seq<char>) -> Option<Seq<char>>;

/// `std::path::Path::parent` followed by `Path::file_name` and `OsStr::to_str`.
#[verifier::external_body]
fn parent_name(root: &str) -> (name: Option<String>)
    ensures
        match name {
            Some(n) => path_parent_name(root@) == Some(n@),
            None => path_parent_name(root@) is None,
        },
{
    std::path::Path::new(root).parent().and_then(|p| p.file_name()).and_then(|n| n.to_str()).map(|n| n.to_string())
}

/// "Default" for the default location, otherwise the name of the folder that
/// contains the library (`parent`), or the managed directory name when there
/// is none or it is empty.
pub open spec fn spec_label_for_parent(parent: Option<Seq<char>>, is_default: bool) -> Seq<char> {
    if is_default {
        "Default"@
    } else {
        match parent {
            Some(name) => if name.len() > 0 { name } else { MANAGED_LIBRARY_DIRECTORY_NAME@ },
            None => MANAGED_LIBRARY_DIRECTORY_NAME@,
        }
    }
}

/// The label of a library location whose containing folder is named `parent`.
pub open spec fn spec_location_label(root: Seq<char>, is_default: bool) -> Seq<char> {
    spec_label_for_parent(path_parent_name(root), is_default)
}

/// The label shown for a library whose containing folder is named `parent`.
pub fn label_for_parent(parent: Option<String>, is_default: bool) -> (label: String)
    ensures
        label@ == spec_label_for_parent(
            match parent {
                Some(p) => Some(p@),
                None => None,
            },
            is_default,
        ),
{
    if is_default {
        return String::from_str("Default");
    }
    match parent {
        Some(name) => if !name.as_str().is_empty() {
            name
        } else {
            String::from_str(MANAGED_LIBRARY_DIRECTORY_NAME)
        },
        None => String::from_str(MANAGED_LIBRARY_DIRECTORY_NAME),
    }
}

/// The label shown for a library stored at `root`.
pub fn location_label(root: &str, is_default: bool) -> (label: String)
    ensures
        label@ == spec_location_label(root@, is_default),
{
    if is_default {
        return String::from_str("Default");
    }
    let parent = parent_name(root);
    label_for_parent(parent, is_default)
}

} // verus!
