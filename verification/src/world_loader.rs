//! Loading a world: from a request, through the build of its grid and of its
//! device resources, to the swap that makes it the active world.
//!
//! The world that is active stays as it is until a replacement is complete:
//! a load that fails, in decoding or on the device, changes nothing that is
//! in use.

use vstd::prelude::*;
use crate::compute_resources::{ComputeResourceManager, BoundResources, ResourceManagerView, WorldResources};
use crate::grid_hierarchy::{GridHierarchy, GridHierarchyView, empty_grid, is_supported, is_supported_size, parse};
use crate::voxel_source::ParseError;

verus! {

/// A request to load a world.
#[derive(Clone, Debug, PartialEq, Eq)]
pub enum LoadVoxelWorld {
    /// An empty world of the given size.
    Empty(u32),
    /// The world that the voxel source at the given path holds.
    File(String),
    /// No world is to be loaded.
    NoRequest,
}

/// Why a world could not be loaded.
#[derive(Clone, Copy, Debug, PartialEq, Eq, Structural)]
pub enum WorldLoadError {
    /// The voxel source could not be found.
    NotFound,
    /// The voxel source is malformed.
    Malformed,
    /// The world is not of a supported size.
    UnsupportedSize,
}

/// The device could not create the resources of a world.
#[derive(Clone, Copy, Debug, PartialEq, Eq, Structural)]
pub struct ResourceRebuildFailure;

/// Where a loader stands.
#[derive(Clone, Copy, Debug, PartialEq, Eq, Structural)]
pub enum WorldState {
    /// No world was asked for and none is active.
    Idle,
    /// A world was asked for and its build has not begun.
    Requested,
    /// The grid of a world is built and its device resources are being
    /// created.
    Building,
    /// A world is active and nothing else is under way.
    Active,
}

/// What a load comes to: the grid of the world, or the reason why there is
/// none. `file` is the content of the voxel source of a `File` request, if it
/// could be read.
pub open spec fn load_outcome(request: LoadVoxelWorld, file: Option<Seq<u8>>) -> Result<
    GridHierarchyView,
    WorldLoadError,
> {
    match request {
        LoadVoxelWorld::Empty(size) => if is_supported_size(size) {
            Ok(empty_grid(size))
        } else {
            Err(WorldLoadError::UnsupportedSize)
        },
        LoadVoxelWorld::File(_) => match file {
            None => Err(WorldLoadError::NotFound),
            Some(bytes) => match parse(bytes) {
                Ok(grid) => Ok(grid),
                Err(ParseError::Malformed) => Err(WorldLoadError::Malformed),
                Err(ParseError::UnsupportedSize) => Err(WorldLoadError::UnsupportedSize),
            },
        },
        LoadVoxelWorld::NoRequest => Err(WorldLoadError::NotFound),
    }
}

/// The content of a file that was read, as a sequence of bytes.
pub open spec fn file_bytes(file: Option<&[u8]>) -> Option<Seq<u8>> {
    match file {
        Some(bytes) => Some(bytes@),
        None => None,
    }
}

/// Builds the grid that a request asks for.
pub fn realize_load(request: &LoadVoxelWorld, file: Option<&[u8]>) -> (result: Result<
    GridHierarchy,
    WorldLoadError,
>)
    ensures
        match result {
            Ok(grid) => load_outcome(*request, file_bytes(file)) is Ok && load_outcome(
                *request,
                file_bytes(file),
            )->Ok_0 == grid@,
            Err(error) => load_outcome(*request, file_bytes(file)) is Err && load_outcome(
                *request,
                file_bytes(file),
            )->Err_0 == error,
        },
{
    match request {
        LoadVoxelWorld::Empty(size) => {
            if is_supported(*size) {
                Ok(GridHierarchy::build_empty(*size))
            } else {
                Err(WorldLoadError::UnsupportedSize)
            }
        },
        LoadVoxelWorld::File(_) => {
            match file {
                None => Err(WorldLoadError::NotFound),
                Some(bytes) => match GridHierarchy::build_from_bytes(bytes) {
                    Ok(grid) => Ok(grid),
                    Err(ParseError::Malformed) => Err(WorldLoadError::Malformed),
                    Err(ParseError::UnsupportedSize) => Err(WorldLoadError::UnsupportedSize),
                },
            }
        },
        LoadVoxelWorld::NoRequest => Err(WorldLoadError::NotFound),
    }
}

/// What a loader holds.
pub ghost struct LoaderView {
    /// The world that was asked for and whose build has not begun.
    pub request: LoadVoxelWorld,
    /// The grid whose device resources are being created.
    pub building: Option<GridHierarchyView>,
    /// The grid of the active world.
    pub active: Option<GridHierarchyView>,
}

impl LoaderView {
    /// Where the loader stands.
    pub open spec fn state(self) -> WorldState {
        if self.building is Some {
            WorldState::Building
        } else if !(self.request is NoRequest) {
            WorldState::Requested
        } else if self.active is Some {
            WorldState::Active
        } else {
            WorldState::Idle
        }
    }
}

/// Takes a world from request to activation.
pub struct WorldLoader {
    request: LoadVoxelWorld,
    building: Option<GridHierarchy>,
    active: Option<GridHierarchy>,
}

/// The view of a grid that may be there.
pub open spec fn grid_view(grid: Option<GridHierarchy>) -> Option<GridHierarchyView> {
    match grid {
        Some(g) => Some(g@),
        None => None,
    }
}

impl View for WorldLoader {
    type V = LoaderView;

    closed spec fn view(&self) -> LoaderView {
        LoaderView {
            request: self.request,
            building: grid_view(self.building),
            active: grid_view(self.active),
        }
    }
}

/// The resources after the world `world` has taken the place of the one
/// before.
pub open spec fn swapped(before: ResourceManagerView, world: WorldResources)
    -> ResourceManagerView {
    ResourceManagerView { resources: BoundResources { world, ..before.resources }, ..before }
}

/// How the begin of a build follows from the outcome of the load: a grid that
/// was built is the one under way and the answer is `true`; an error is
/// handed on and the build under way stays as it was.
pub open spec fn begun(
    outcome: Result<GridHierarchyView, WorldLoadError>,
    before: Option<GridHierarchyView>,
    result: Result<bool, WorldLoadError>,
    after: Option<GridHierarchyView>,
) -> bool {
    match outcome {
        Ok(grid) => result == Ok::<bool, WorldLoadError>(true) && after == Some(grid),
        Err(error) => result == Err::<bool, WorldLoadError>(error) && after == before,
    }
}

impl WorldLoader {
    /// A loader without a request and without a world.
    pub fn new() -> (loader: WorldLoader)
        ensures
            loader@ == (LoaderView {
                request: LoadVoxelWorld::NoRequest,
                building: None,
                active: None,
            }),
            loader@.state() == WorldState::Idle,
    {
        WorldLoader { request: LoadVoxelWorld::NoRequest, building: None, active: None }
    }

    /// Where the loader stands.
    pub fn state(&self) -> (state: WorldState)
        ensures
            state == self@.state(),
    {
        if self.building.is_some() {
            WorldState::Building
        } else if !matches!(self.request, LoadVoxelWorld::NoRequest) {
            WorldState::Requested
        } else if self.active.is_some() {
            WorldState::Active
        } else {
            WorldState::Idle
        }
    }

    /// The world that was asked for and whose build has not begun.
    pub fn request(&self) -> (request: &LoadVoxelWorld)
        ensures
            *request == self@.request,
    {
        &self.request
    }

    /// The grid whose device resources are being created.
    pub fn building(&self) -> (grid: Option<&GridHierarchy>)
        ensures
            match grid {
                Some(g) => self@.building == Some(g@),
                None => self@.building.is_none(),
            },
    {
        self.building.as_ref()
    }

    /// The grid of the active world.
    pub fn active(&self) -> (grid: Option<&GridHierarchy>)
        ensures
            match grid {
                Some(g) => self@.active == Some(g@),
                None => self@.active.is_none(),
            },
    {
        self.active.as_ref()
    }

    /// Asks for a world. The request takes the place of one whose build has
    /// not begun; a build under way and the active world are not touched.
    pub fn request_load(&mut self, request: LoadVoxelWorld)
        ensures
            final(self)@ == (LoaderView { request, ..old(self)@ }),
    {
        self.request = request;
    }

    /// Begins the build of the world that was asked for: builds its grid, and
    /// says whether there is now a grid whose device resources are to be
    /// created. The request is taken in any case. If the load fails, the
    /// error says why, and neither a build under way nor the active world
    /// is touched. Without a request nothing happens.
    pub fn begin_build(&mut self, file: Option<&[u8]>) -> (result: Result<bool, WorldLoadError>)
        ensures
            final(self)@.request == LoadVoxelWorld::NoRequest,
            final(self)@.active == old(self)@.active,
            old(self)@.request is NoRequest ==> result == Ok::<bool, WorldLoadError>(false)
                && final(self)@ == old(self)@,
            !(old(self)@.request is NoRequest) ==> begun(
                load_outcome(old(self)@.request, file_bytes(file)),
                old(self)@.building,
                result,
                final(self)@.building,
            ),
    {
        if matches!(self.request, LoadVoxelWorld::NoRequest) {
            return Ok(false);
        }
        let outcome = realize_load(&self.request, file);
        self.request = LoadVoxelWorld::NoRequest;
        match outcome {
            Ok(grid) => {
                self.building = Some(grid);
                Ok(true)
            },
            Err(error) => Err(error),
        }
    }

    /// Ends the build under way. `created` holds the device resources of the
    /// new world if the device could create all of them. Then they take the
    /// place of those of the world before, which are handed back to be
    /// released, and the new grid becomes the active one. If the device could
    /// not create them, the build is given up and no frame is dispatched
    /// before the next one begins; the active world and its resources stay
    /// as they are. Without a build under way nothing happens.
    pub fn finish_build(
        &mut self,
        resources: &mut ComputeResourceManager,
        created: Option<WorldResources>,
    ) -> (result: Result<Option<WorldResources>, ResourceRebuildFailure>)
        ensures
            final(self)@.request == old(self)@.request,
            final(self)@.building.is_none(),
            old(self)@.building is None ==> result is Ok && result->Ok_0 is None && final(self)@
                == old(self)@ && final(resources)@ == old(resources)@,
            old(self)@.building is Some && created is None ==> result is Err && final(self)@.active
                == old(self)@.active && final(resources)@ == (ResourceManagerView {
                rebuild_failed: true,
                ..old(resources)@
            }),
            old(self)@.building is Some && created is Some ==> result is Ok && result->Ok_0 == Some(
                old(resources)@.resources.world,
            ) && final(self)@.active == old(self)@.building && final(resources)@ == swapped(
                old(resources)@,
                created->0,
            ),
    {
        let grid: GridHierarchy = match self.building.take() {
            Some(grid) => grid,
            None => {
                return Ok(None);
            },
        };
        match created {
            Some(world) => {
                let released: WorldResources = resources.swap_world(world);
                self.active = Some(grid);
                Ok(Some(released))
            },
            None => {
                resources.fail_rebuild();
                Err(ResourceRebuildFailure)
            },
        }
    }
}

} // verus!
