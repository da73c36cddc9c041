use vstd::prelude::*;

use gfx::state::Rasterizer;
use gfx::Primitive;

use crate::config::{fill_rasterizer, BuildConfig};
use crate::error::PsoCellError;

verus! {

/// Shader sources held in memory, with the configuration to build them with.
#[derive(Debug)]
pub struct StaticSources<I> {
    pub vertex_shader: Vec<u8>,
    pub fragment_shader: Vec<u8>,
    pub config: BuildConfig<I>,
}

/// Paths of shader files to watch, with the configuration to build them with.
#[derive(Debug)]
pub struct WatchedSources<I> {
    pub vertex_shader: String,
    pub fragment_shader: String,
    pub config: BuildConfig<I>,
}

/// Configures a `SimplePsoCell`, whose shader sources are given as bytes.
#[derive(Debug)]
pub struct SimplePsoCellBuilder<I> {
    vertex_shader: Option<Vec<u8>>,
    fragment_shader: Option<Vec<u8>>,
    primitive: Primitive,
    rasterizer: Rasterizer,
    init: I,
}

impl<I> SimplePsoCellBuilder<I> {
    pub closed spec fn vertex_source(&self) -> Option<Seq<u8>> {
        match self.vertex_shader {
            Some(v) => Some(v@),
            None => None,
        }
    }

    pub closed spec fn fragment_source(&self) -> Option<Seq<u8>> {
        match self.fragment_shader {
            Some(v) => Some(v@),
            None => None,
        }
    }

    pub closed spec fn primitive_spec(&self) -> Primitive {
        self.primitive
    }

    pub closed spec fn rasterizer_spec(&self) -> Rasterizer {
        self.rasterizer
    }

    pub closed spec fn init_spec(&self) -> I {
        self.init
    }

    /// A builder with no shaders, triangle lists and the filling rasterizer.
    pub fn using(init_struct: I) -> (r: Self)
        ensures
            r.vertex_source() is None,
            r.fragment_source() is None,
            r.primitive_spec() == Primitive::TriangleList,
            r.rasterizer_spec() == fill_rasterizer(),
            r.init_spec() == init_struct,
    {
        SimplePsoCellBuilder {
            vertex_shader: None,
            fragment_shader: None,
            init: init_struct,
            primitive: Primitive::TriangleList,
            rasterizer: Rasterizer::new_fill(),
        }
    }

    pub fn vertex_shader(self, bytes: &[u8]) -> (r: Self)
        ensures
            r.vertex_source() == Some(bytes@),
            r.fragment_source() == self.fragment_source(),
            r.primitive_spec() == self.primitive_spec(),
            r.rasterizer_spec() == self.rasterizer_spec(),
            r.init_spec() == self.init_spec(),
    {
        SimplePsoCellBuilder { vertex_shader: Some(vstd::slice::slice_to_vec(bytes)), ..self }
    }

    pub fn fragment_shader(self, bytes: &[u8]) -> (r: Self)
        ensures
            r.vertex_source() == self.vertex_source(),
            r.fragment_source() == Some(bytes@),
            r.primitive_spec() == self.primitive_spec(),
            r.rasterizer_spec() == self.rasterizer_spec(),
            r.init_spec() == self.init_spec(),
    {
        SimplePsoCellBuilder { fragment_shader: Some(vstd::slice::slice_to_vec(bytes)), ..self }
    }

    pub fn primitive(self, p: Primitive) -> (r: Self)
        ensures
            r.vertex_source() == self.vertex_source(),
            r.fragment_source() == self.fragment_source(),
            r.primitive_spec() == p,
            r.rasterizer_spec() == self.rasterizer_spec(),
            r.init_spec() == self.init_spec(),
    {
        SimplePsoCellBuilder { primitive: p, ..self }
    }

    pub fn rasterizer(self, r: Rasterizer) -> (out: Self)
        ensures
            out.vertex_source() == self.vertex_source(),
            out.fragment_source() == self.fragment_source(),
            out.primitive_spec() == self.primitive_spec(),
            out.rasterizer_spec() == r,
            out.init_spec() == self.init_spec(),
    {
        SimplePsoCellBuilder { rasterizer: r, ..self }
    }

    /// The configured sources, ready to build: fails when the vertex shader, or else the
    /// fragment shader, was never given.
    pub fn into_sources(self) -> (r: Result<StaticSources<I>, PsoCellError>)
        ensures
            self.vertex_source() is None ==> r == Err::<StaticSources<I>, _>(
                PsoCellError::MissingVertexShader,
            ),
            self.vertex_source() is Some && self.fragment_source() is None ==> r == Err::<
                StaticSources<I>,
                _,
            >(PsoCellError::MissingFragmentShader),
            r is Ok <==> self.vertex_source() is Some && self.fragment_source() is Some,
            r matches Ok(s) ==> {
                &&& Some(s.vertex_shader@) == self.vertex_source()
                &&& Some(s.fragment_shader@) == self.fragment_source()
                &&& s.config.primitive == self.primitive_spec()
                &&& s.config.rasterizer == self.rasterizer_spec()
                &&& s.config.init == self.init_spec()
            },
    {
        let vertex_shader = match self.vertex_shader {
            Some(v) => v,
            None => return Err(PsoCellError::MissingVertexShader),
        };
        let fragment_shader = match self.fragment_shader {
            Some(f) => f,
            None => return Err(PsoCellError::MissingFragmentShader),
        };
        Ok(
            StaticSources {
                vertex_shader,
                fragment_shader,
                config: BuildConfig {
                    primitive: self.primitive,
                    rasterizer: self.rasterizer,
                    init: self.init,
                },
            },
        )
    }
}

/// Configures a `WatcherPsoCell`, whose shader sources are files that it watches.
#[derive(Debug)]
pub struct WatcherPsoCellBuilder<I> {
    vertex_shader: Option<String>,
    fragment_shader: Option<String>,
    primitive: Primitive,
    rasterizer: Rasterizer,
    init: I,
}

impl<I> WatcherPsoCellBuilder<I> {
    pub closed spec fn vertex_path(&self) -> Option<Seq<char>> {
        match self.vertex_shader {
            Some(p) => Some(p@),
            None => None,
        }
    }

    pub closed spec fn fragment_path(&self) -> Option<Seq<char>> {
        match self.fragment_shader {
            Some(p) => Some(p@),
            None => None,
        }
    }

    pub closed spec fn primitive_spec(&self) -> Primitive {
        self.primitive
    }

    pub closed spec fn rasterizer_spec(&self) -> Rasterizer {
        self.rasterizer
    }

    pub closed spec fn init_spec(&self) -> I {
        self.init
    }

    /// A builder with no shaders, triangle lists and the filling rasterizer.
    pub fn using(init_struct: I) -> (r: Self)
        ensures
            r.vertex_path() is None,
            r.fragment_path() is None,
            r.primitive_spec() == Primitive::TriangleList,
            r.rasterizer_spec() == fill_rasterizer(),
            r.init_spec() == init_struct,
    {
        WatcherPsoCellBuilder {
            vertex_shader: None,
            fragment_shader: None,
            init: init_struct,
            primitive: Primitive::TriangleList,
            rasterizer: Rasterizer::new_fill(),
        }
    }

    pub fn vertex_shader(self, path: &str) -> (r: Self)
        ensures
            r.vertex_path() == Some(path@),
            r.fragment_path() == self.fragment_path(),
            r.primitive_spec() == self.primitive_spec(),
            r.rasterizer_spec() == self.rasterizer_spec(),
            r.init_spec() == self.init_spec(),
    {
        WatcherPsoCellBuilder { vertex_shader: Some(path.to_owned()), ..self }
    }

    pub fn fragment_shader(self, path: &str) -> (r: Self)
        ensures
            r.vertex_path() == self.vertex_path(),
            r.fragment_path() == Some(path@),
            r.primitive_spec() == self.primitive_spec(),
            r.rasterizer_spec() == self.rasterizer_spec(),
            r.init_spec() == self.init_spec(),
    {
        WatcherPsoCellBuilder { fragment_shader: Some(path.to_owned()), ..self }
    }

    pub fn primitive(self, p: Primitive) -> (r: Self)
        ensures
            r.vertex_path() == self.vertex_path(),
            r.fragment_path() == self.fragment_path(),
            r.primitive_spec() == p,
            r.rasterizer_spec() == self.rasterizer_spec(),
            r.init_spec() == self.init_spec(),
    {
        WatcherPsoCellBuilder { primitive: p, ..self }
    }

    pub fn rasterizer(self, r: Rasterizer) -> (out: Self)
        ensures
            out.vertex_path() == self.vertex_path(),
            out.fragment_path() == self.fragment_path(),
            out.primitive_spec() == self.primitive_spec(),
            out.rasterizer_spec() == r,
            out.init_spec() == self.init_spec(),
    {
        WatcherPsoCellBuilder { rasterizer: r, ..self }
    }

    /// The configured paths, ready to watch and build: fails when the vertex shader, or
    /// else the fragment shader, was never given.
    pub fn into_sources(self) -> (r: Result<WatchedSources<I>, PsoCellError>)
        ensures
            self.vertex_path() is None ==> r == Err::<WatchedSources<I>, _>(
                PsoCellError::MissingVertexShader,
            ),
            self.vertex_path() is Some && self.fragment_path() is None ==> r == Err::<
                WatchedSources<I>,
                _,
            >(PsoCellError::MissingFragmentShader),
            r is Ok <==> self.vertex_path() is Some && self.fragment_path() is Some,
            r matches Ok(s) ==> {
                &&& Some(s.vertex_shader@) == self.vertex_path()
                &&& Some(s.fragment_shader@) == self.fragment_path()
                &&& s.config.primitive == self.primitive_spec()
                &&& s.config.rasterizer == self.rasterizer_spec()
                &&& s.config.init == self.init_spec()
            },
    {
        let vertex_shader = match self.vertex_shader {
            Some(v) => v,
            None => return Err(PsoCellError::MissingVertexShader),
        };
        let fragment_shader = match self.fragment_shader {
            Some(f) => f,
            None => return Err(PsoCellError::MissingFragmentShader),
        };
        Ok(
            WatchedSources {
                vertex_shader,
                fragment_shader,
                config: BuildConfig {
                    primitive: self.primitive,
                    rasterizer: self.rasterizer,
                    init: self.init,
                },
            },
        )
    }
}

} // verus!
