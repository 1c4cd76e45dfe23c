// Front-end options: emulated system, Game Boy model, shader and scaling,
// with their command-line names.
use vstd::prelude::*;
use crate::pc1500::model::Pc1500Model;

verus! {

pub const QUALIFIER: &'static str = "com.github";
pub const ORGANIZATION: &'static str = "remind-me-later";
pub const CERES_BIN: &'static str = "ceres";
pub const CERES_STYLIZED: &'static str = "Ceres";

/// An option with a command-line name and a fixed list of values.
pub trait AppOption: Sized {
    /// The value's command-line name.
    fn str(self) -> &'static str;

    /// Every value, in declaration order.
    fn iter() -> Vec<Self>;
}

#[derive(Debug, Clone, Copy, PartialEq, Eq, Structural)]
pub enum Model {
    Dmg,
    Mgb,
    Cgb,
}

#[derive(Debug, Clone, Copy, PartialEq, Eq, Structural)]
pub enum System {
    GameBoy,
    Pc1500,
}

#[derive(Debug, Clone, Copy, PartialEq, Eq, Structural)]
pub enum ShaderOption {
    Nearest,
    Scale2x,
    Scale3x,
    Lcd,
    Crt,
}

#[derive(Debug, Clone, Copy, PartialEq, Eq, Structural)]
pub enum ScalingOption {
    PixelPerfect,
    Stretch,
}

impl Default for Model {
    fn default() -> (r: Self)
        ensures
            r == Model::Cgb,
    {
        Model::Cgb
    }
}

impl Default for System {
    fn default() -> (r: Self)
        ensures
            r == System::GameBoy,
    {
        System::GameBoy
    }
}

impl Default for ShaderOption {
    fn default() -> (r: Self)
        ensures
            r == ShaderOption::Nearest,
    {
        ShaderOption::Nearest
    }
}

impl Default for ScalingOption {
    fn default() -> (r: Self)
        ensures
            r == ScalingOption::Stretch,
    {
        ScalingOption::Stretch
    }
}

impl AppOption for System {
    fn str(self) -> (r: &'static str)
        ensures
            self == System::GameBoy ==> r@ == "gameboy"@,
            self == System::Pc1500 ==> r@ == "pc1500"@,
    {
        match self {
            System::GameBoy => "gameboy",
            System::Pc1500 => "pc1500",
        }
    }

    fn iter() -> (r: Vec<Self>)
        ensures
            r@ == seq![System::GameBoy, System::Pc1500],
    {
        let mut v: Vec<Self> = Vec::new();
        v.push(System::GameBoy);
        v.push(System::Pc1500);
        v
    }
}

impl AppOption for Model {
    fn str(self) -> (r: &'static str)
        ensures
            self == Model::Dmg ==> r@ == "dmg"@,
            self == Model::Mgb ==> r@ == "mgb"@,
            self == Model::Cgb ==> r@ == "cgb"@,
    {
        match self {
            Model::Dmg => "dmg",
            Model::Mgb => "mgb",
            Model::Cgb => "cgb",
        }
    }

    fn iter() -> (r: Vec<Self>)
        ensures
            r@ == seq![Model::Dmg, Model::Mgb, Model::Cgb],
    {
        let mut v: Vec<Self> = Vec::new();
        v.push(Model::Dmg);
        v.push(Model::Mgb);
        v.push(Model::Cgb);
        v
    }
}

impl AppOption for ShaderOption {
    fn str(self) -> (r: &'static str)
        ensures
            self == ShaderOption::Nearest ==> r@ == "nearest"@,
            self == ShaderOption::Scale2x ==> r@ == "scale2x"@,
            self == ShaderOption::Scale3x ==> r@ == "scale3x"@,
            self == ShaderOption::Lcd ==> r@ == "lcd"@,
            self == ShaderOption::Crt ==> r@ == "crt"@,
    {
        match self {
            ShaderOption::Nearest => "nearest",
            ShaderOption::Scale2x => "scale2x",
            ShaderOption::Scale3x => "scale3x",
            ShaderOption::Lcd => "lcd",
            ShaderOption::Crt => "crt",
        }
    }

    fn iter() -> (r: Vec<Self>)
        ensures
            r@ == seq![ShaderOption::Nearest, ShaderOption::Scale2x, ShaderOption::Scale3x, ShaderOption::Lcd,
                ShaderOption::Crt],
    {
        let mut v: Vec<Self> = Vec::new();
        v.push(ShaderOption::Nearest);
        v.push(ShaderOption::Scale2x);
        v.push(ShaderOption::Scale3x);
        v.push(ShaderOption::Lcd);
        v.push(ShaderOption::Crt);
        v
    }
}

impl AppOption for ScalingOption {
    fn str(self) -> (r: &'static str)
        ensures
            self == ScalingOption::PixelPerfect ==> r@ == "pixel-perfect"@,
            self == ScalingOption::Stretch ==> r@ == "stretch"@,
    {
        match self {
            ScalingOption::PixelPerfect => "pixel-perfect",
            ScalingOption::Stretch => "stretch",
        }
    }

    fn iter() -> (r: Vec<Self>)
        ensures
            r@ == seq![ScalingOption::PixelPerfect, ScalingOption::Stretch],
    {
        let mut v: Vec<Self> = Vec::new();
        v.push(ScalingOption::PixelPerfect);
        v.push(ScalingOption::Stretch);
        v
    }
}

/// The parsed command line.
pub struct Cli {
    pub file: Option<String>,
    pub system: System,
    pub model: Model,
    pub shader_option: ShaderOption,
    pub pixel_mode: ScalingOption,
}

impl Cli {
    pub fn system(&self) -> (r: System)
        ensures
            r == self.system,
    {
        self.system
    }

    pub fn model(&self) -> (r: Model)
        ensures
            r == self.model,
    {
        self.model
    }

    /// The PC-1500 model to emulate: always the original PC-1500.
    pub fn pc1500_model(&self) -> (r: Pc1500Model)
        ensures
            r == Pc1500Model::Pc1500,
    {
        Pc1500Model::Pc1500
    }

    pub fn file(&self) -> (r: Option<&String>)
        ensures
            r == match self.file { Some(ref f) => Some(f), None => None::<&String> },
    {
        match &self.file {
            Some(f) => Some(f),
            None => None,
        }
    }

    pub fn shader_option(&self) -> (r: ShaderOption)
        ensures
            r == self.shader_option,
    {
        self.shader_option
    }

    pub fn scaling_option(&self) -> (r: ScalingOption)
        ensures
            r == self.pixel_mode,
    {
        self.pixel_mode
    }

    pub fn pixel_mode(&self) -> (r: ScalingOption)
        ensures
            r == self.pixel_mode,
    {
        self.pixel_mode
    }
}

} // verus!
