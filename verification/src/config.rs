//! The resolution of the sampling grid, and how it is read from a script scope.

use vstd::prelude::*;

use crate::scope::{lookup, scope_integer, scope_integers, scope_push_integer};
use crate::tessellate::{index_count, lemma_axes_within_grid, vertex_count};

verus! {

/// The number of vertices that 16-bit indices can address.
pub const MAX_VERTICES: usize = 65536;

/// The number of segments along each axis of the grid of a script that
/// declares none.
pub const DEFAULT_SEGMENTS: usize = 100;

/// The name of the scope variable that holds the segment count along `u`.
pub open spec fn u_segments_name() -> Seq<char> {
    "u_segments"@
}

/// The name of the scope variable that holds the segment count along `v`.
pub open spec fn v_segments_name() -> Seq<char> {
    "v_segments"@
}

/// Why a scope does not describe a grid.
#[derive(Debug, Clone, Copy, PartialEq, Eq, Structural)]
pub enum ConfigError {
    /// The scope binds no integer to `u_segments`.
    MissingUSegments,
    /// The scope binds no integer to `v_segments`.
    MissingVSegments,
    /// `u_segments` is negative.
    NegativeUSegments,
    /// `v_segments` is negative.
    NegativeVSegments,
    /// The grid has more vertices than 16-bit indices can address.
    TooManyVertices,
}

/// The resolution of the sampling grid: how many segments the parameter domain
/// is cut into along each of its two axes.
///
/// A grid of `u_segments` by `v_segments` cells has one more vertex than
/// segments along each axis. A count of zero is allowed and gives a grid
/// without cells.
#[derive(Debug, Clone, Copy, PartialEq, Eq, Structural)]
pub struct SurfaceConfig {
    pub u_segments: usize,
    pub v_segments: usize,
}

/// The grid that the two segment counts of a scope describe: both must be
/// bound, neither may be negative, and the grid must fit the index format.
/// Where several of these fail, the first in this order is reported, `u`
/// before `v`.
pub open spec fn config_of(u_segments: Option<i64>, v_segments: Option<i64>) -> Result<
    SurfaceConfig,
    ConfigError,
> {
    match (u_segments, v_segments) {
        (None, _) => Err(ConfigError::MissingUSegments),
        (Some(_), None) => Err(ConfigError::MissingVSegments),
        (Some(u), Some(v)) => {
            if u < 0 {
                Err(ConfigError::NegativeUSegments)
            } else if v < 0 {
                Err(ConfigError::NegativeVSegments)
            } else if vertex_count(u as nat, v as nat) > MAX_VERTICES {
                Err(ConfigError::TooManyVertices)
            } else {
                Ok(SurfaceConfig { u_segments: u as usize, v_segments: v as usize })
            }
        },
    }
}

impl SurfaceConfig {
    /// The number of vertices of the grid, as a mathematical integer.
    pub open spec fn spec_vertex_count(self) -> nat {
        vertex_count(self.u_segments as nat, self.v_segments as nat)
    }

    /// The number of index entries of the grid, as a mathematical integer.
    pub open spec fn spec_index_count(self) -> nat {
        index_count(self.u_segments as nat, self.v_segments as nat)
    }

    /// Every vertex of the grid can be named by a 16-bit index.
    pub open spec fn fits_index_format(self) -> bool {
        self.spec_vertex_count() <= MAX_VERTICES
    }

    /// A grid of the given resolution.
    pub fn new(u_segments: usize, v_segments: usize) -> (config: Self)
        ensures
            config.u_segments == u_segments,
            config.v_segments == v_segments,
    {
        SurfaceConfig { u_segments, v_segments }
    }

    /// Whether every vertex of the grid can be named by a 16-bit index.
    pub fn check_index_format(&self) -> (fits: bool)
        ensures
            fits == self.fits_index_format(),
    {
        proof {
            lemma_axes_within_grid(self.u_segments as nat, self.v_segments as nat);
        }
        if self.u_segments >= MAX_VERTICES || self.v_segments >= MAX_VERTICES {
            false
        } else {
            let rows: u64 = self.u_segments as u64 + 1;
            let stride: u64 = self.v_segments as u64 + 1;
            assert(rows * stride <= 65536 * 65536) by (nonlinear_arith)
                requires
                    rows <= 65536,
                    stride <= 65536,
            ;
            rows * stride <= MAX_VERTICES as u64
        }
    }

    /// The number of vertices of the grid.
    pub fn vertex_count(&self) -> (count: usize)
        requires
            self.fits_index_format(),
        ensures
            count == self.spec_vertex_count(),
    {
        proof {
            lemma_axes_within_grid(self.u_segments as nat, self.v_segments as nat);
        }
        (self.u_segments + 1) * (self.v_segments + 1)
    }

    /// The number of entries of the index list of the grid, which is the
    /// number of indices that a draw call of the mesh covers.
    pub fn index_count(&self) -> (count: u32)
        requires
            self.fits_index_format(),
        ensures
            count == self.spec_index_count(),
    {
        proof {
            lemma_axes_within_grid(self.u_segments as nat, self.v_segments as nat);
        }
        let cells: usize = self.u_segments * self.v_segments;
        (6 * cells) as u32
    }

    /// The grid that a pair of segment counts read from a scope describes.
    pub fn from_integers(u_segments: Option<i64>, v_segments: Option<i64>) -> (result: Result<
        Self,
        ConfigError,
    >)
        ensures
            result == config_of(u_segments, v_segments),
            result is Ok ==> result->Ok_0.fits_index_format(),
    {
        let u = match u_segments {
            Some(u) => u,
            None => {
                return Err(ConfigError::MissingUSegments);
            },
        };
        let v = match v_segments {
            Some(v) => v,
            None => {
                return Err(ConfigError::MissingVSegments);
            },
        };
        if u < 0 {
            return Err(ConfigError::NegativeUSegments);
        }
        if v < 0 {
            return Err(ConfigError::NegativeVSegments);
        }
        proof {
            lemma_axes_within_grid(u as nat, v as nat);
        }
        if u >= MAX_VERTICES as i64 || v >= MAX_VERTICES as i64 {
            return Err(ConfigError::TooManyVertices);
        }
        let config = SurfaceConfig { u_segments: u as usize, v_segments: v as usize };
        if config.check_index_format() {
            Ok(config)
        } else {
            Err(ConfigError::TooManyVertices)
        }
    }

    /// Reads the resolution that a script has left in its scope: the integers
    /// bound to `u_segments` and `v_segments`.
    pub fn from_scope(scope: &rhai::Scope<'_>) -> (result: Result<Self, ConfigError>)
        ensures
            result == config_of(
                lookup(scope_integers(*scope), u_segments_name()),
                lookup(scope_integers(*scope), v_segments_name()),
            ),
            result is Ok ==> result->Ok_0.fits_index_format(),
    {
        let u_segments = scope_integer(scope, "u_segments");
        let v_segments = scope_integer(scope, "v_segments");
        Self::from_integers(u_segments, v_segments)
    }

    /// Binds both segment counts in `scope` to [`DEFAULT_SEGMENTS`], for the
    /// script to overwrite or to leave as they are.
    pub fn seed_defaults(scope: &mut rhai::Scope<'_>)
        ensures
            scope_integers(*final(scope)) == scope_integers(*old(scope)).insert(
                u_segments_name(),
                DEFAULT_SEGMENTS as i64,
            ).insert(v_segments_name(), DEFAULT_SEGMENTS as i64),
    {
        scope_push_integer(scope, "u_segments", DEFAULT_SEGMENTS as i64);
        scope_push_integer(scope, "v_segments", DEFAULT_SEGMENTS as i64);
    }
}

impl Default for SurfaceConfig {
    /// The grid without segments, which consists of a single vertex.
    fn default() -> (config: Self)
        ensures
            config == (SurfaceConfig { u_segments: 0, v_segments: 0 }),
    {
        SurfaceConfig { u_segments: 0, v_segments: 0 }
    }
}

/// A scope whose seeded defaults are left untouched describes the default
/// grid, whatever else the scope held before it was seeded.
pub proof fn lemma_seeded_defaults_are_read_back(before: Map<Seq<char>, i64>)
    ensures
        ({
            let seeded = before.insert(u_segments_name(), DEFAULT_SEGMENTS as i64).insert(
                v_segments_name(),
                DEFAULT_SEGMENTS as i64,
            );
            config_of(lookup(seeded, u_segments_name()), lookup(seeded, v_segments_name())) == Ok::<
                SurfaceConfig,
                ConfigError,
            >(SurfaceConfig { u_segments: DEFAULT_SEGMENTS, v_segments: DEFAULT_SEGMENTS })
        }),
{
    reveal_strlit("u_segments");
    reveal_strlit("v_segments");
    assert(u_segments_name()[0] != v_segments_name()[0]);
    assert(vertex_count(100, 100) == 10201) by (nonlinear_arith);
}

} // verus!
