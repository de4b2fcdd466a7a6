use vstd::prelude::*;
use vstd::utf8::encode_utf8;
use crate::endian::{
    be_bytes, be_value, lemma_be_bytes_len, lemma_be_value_of_bytes, lemma_pow256_values, put_char,
};
use crate::errors::PCSError;
use crate::framing::ToPackage;
use crate::package::{is_scalar_value, Package, PackageView};

verus! {

/// Routing key of a render command.
pub const RENDER: &'static str = "view.render";

/// Routing key of a player's new transform.
pub const PLAYER_TRANSFORM: &'static str = "update.player.transform";

/// Routing key of a player's leaving.
pub const PLAYER_EXIT: &'static str = "update.player.exit";

/// Routing key of a player's key press.
pub const PLAYER_INTERACT: &'static str = "update.player.interact";

/// Routing key of a human-readable text message.
pub const LEGIBLE: &'static str = "test.legible";

/// A command to draw: what to draw, where, and with which texture and shader.
#[derive(Debug, Clone)]
pub struct RenderPackage {
    vertices: String,
    model: [[u8; 4]; 4],
    texture: String,
    shader: String,
}

/// The four parts of a render command.
pub struct RenderView {
    pub vertices: Seq<char>,
    pub model: [[u8; 4]; 4],
    pub texture: Seq<char>,
    pub shader: Seq<char>,
}

impl View for RenderPackage {
    type V = RenderView;

    closed spec fn view(&self) -> RenderView {
        RenderView {
            vertices: self.vertices@,
            model: self.model,
            texture: self.texture@,
            shader: self.shader@,
        }
    }
}

impl RenderPackage {
    /// A render command from references to a vertex buffer, a texture and a
    /// shader, and a model matrix.
    pub fn new(vertices: &str, model: [[u8; 4]; 4], texture: &str, shader: &str) -> (res:
        RenderPackage)
        ensures
            res@ == (RenderView { vertices: vertices@, model, texture: texture@, shader: shader@ }),
    {
        RenderPackage {
            vertices: vertices.to_owned(),
            model,
            texture: texture.to_owned(),
            shader: shader.to_owned(),
        }
    }

    /// The reference to the vertex buffer.
    pub fn vertices(&self) -> (res: &str)
        ensures
            res@ == self@.vertices,
    {
        self.vertices.as_str()
    }

    /// The model matrix.
    pub fn model(&self) -> (res: [[u8; 4]; 4])
        ensures
            res == self@.model,
    {
        self.model
    }

    /// The reference to the texture.
    pub fn texture(&self) -> (res: &str)
        ensures
            res@ == self@.texture,
    {
        self.texture.as_str()
    }

    /// The reference to the shader.
    pub fn shader(&self) -> (res: &str)
        ensures
            res@ == self@.shader,
    {
        self.shader.as_str()
    }
}

/// A player's new transform: one 4x4 matrix.
#[derive(Debug, Clone, Copy)]
pub struct TransformPlayerPackage {
    matrix: [[u8; 4]; 4],
}

impl TransformPlayerPackage {
    /// The matrix of the transform.
    pub closed spec fn matrix_spec(&self) -> [[u8; 4]; 4] {
        self.matrix
    }

    /// A transform from its matrix.
    pub fn new(matrix: [[u8; 4]; 4]) -> (res: TransformPlayerPackage)
        ensures
            res.matrix_spec() == matrix,
    {
        TransformPlayerPackage { matrix }
    }

    /// The matrix of the transform.
    pub fn matrix(&self) -> (res: [[u8; 4]; 4])
        ensures
            res == self.matrix_spec(),
    {
        self.matrix
    }
}

/// A player leaves. The message carries nothing.
#[derive(Debug)]
pub struct ExitPlayerPackage;

impl ToPackage for ExitPlayerPackage {
    /// The payload is empty.
    fn to_package(self) -> (res: Package)
        ensures
            res@ == (PackageView { name: PLAYER_EXIT@, value: Seq::<u8>::empty(), cursor: 0 }),
    {
        Package::new(PLAYER_EXIT, Vec::new())
    }
}

/// A player pressed a key: one character.
#[derive(Debug)]
pub struct PlayerInteractPackage {
    key: char,
}

impl PlayerInteractPackage {
    pub closed spec fn key_spec(&self) -> char {
        self.key
    }

    pub fn new(key: char) -> (res: PlayerInteractPackage)
        ensures
            res.key_spec() == key,
    {
        PlayerInteractPackage { key }
    }

    /// The key that was pressed.
    pub fn key(&self) -> (res: char)
        ensures
            res == self.key_spec(),
    {
        self.key
    }

    /// Reads the message back out of a package: the character that the four
    /// bytes at the package's cursor spell as a big-endian code point.
    pub fn from_package(package: Package) -> (res: Result<PlayerInteractPackage, PCSError>)
        ensures
            match res {
                Ok(message) => package@.can_read(4) && is_scalar_value(
                    be_value(package@.field(4)),
                ) && message.key_spec() == be_value(package@.field(4)) as char,
                Err(e) => if package@.can_read(4) {
                    e == PCSError::InvalidCodepoint && !is_scalar_value(
                        be_value(package@.field(4)),
                    )
                } else {
                    e == PCSError::OutOfBounds
                },
            },
    {
        let mut package = package;
        let key: char = package.get_char()?;
        Ok(PlayerInteractPackage { key })
    }
}

impl ToPackage for PlayerInteractPackage {
    /// The payload is the key's code point in four big-endian bytes.
    fn to_package(self) -> (res: Package)
        ensures
            res@ == (PackageView {
                name: PLAYER_INTERACT@,
                value: be_bytes(self.key_spec() as nat, 4),
                cursor: 0,
            }),
    {
        let mut bytes: Vec<u8> = Vec::with_capacity(4);
        put_char(&mut bytes, self.key);
        Package::new(PLAYER_INTERACT, bytes)
    }
}

/// A text message for people to read.
#[derive(Debug)]
pub struct LegiblePackage {
    message: String,
}

impl LegiblePackage {
    pub closed spec fn message(&self) -> Seq<char> {
        self.message@
    }

    pub fn from_str(value: &str) -> (res: LegiblePackage)
        ensures
            res.message() == value@,
    {
        LegiblePackage { message: value.to_owned() }
    }
}

impl ToPackage for LegiblePackage {
    /// The payload is the text in UTF-8.
    fn to_package(self) -> (res: Package)
        ensures
            res@ == (PackageView {
                name: LEGIBLE@,
                value: encode_utf8(self.message()),
                cursor: 0,
            }),
    {
        let bytes: Vec<u8> = vstd::slice::slice_to_vec(self.message.as_str().as_bytes());
        Package::new(LEGIBLE, bytes)
    }
}

/// A key press that is written into a package and read back is the same key.
pub proof fn lemma_interact_round_trip(key: char)
    ensures
        ({
            let sent = PackageView {
                name: PLAYER_INTERACT@,
                value: be_bytes(key as nat, 4),
                cursor: 0,
            };
            &&& sent.can_read(4)
            &&& is_scalar_value(be_value(sent.field(4)))
            &&& be_value(sent.field(4)) as char == key
        }),
{
    lemma_pow256_values();
    lemma_be_bytes_len(key as nat, 4);
    lemma_be_value_of_bytes(key as nat, 4);
    assert(be_bytes(key as nat, 4).subrange(0, 4) =~= be_bytes(key as nat, 4));
}

} // verus!
