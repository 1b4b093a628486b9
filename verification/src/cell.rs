//! The periodic unit cell: three edge lengths, three angles and a shape.
//!
//! The cell keeps lengths and angles as they were given, so reading them back
//! is exact. Everything that this module decides is decided on the encodings
//! of the numbers; where a result needs rounding arithmetic (the basis of an
//! oblique cell, a volume, a wrapped vector) the cell says what is to be
//! evaluated and on which numbers, and leaves the evaluation to its caller.

use crate::double::{lemma_constants, of_bits, unit, Double, RIGHT_ANGLE_BITS, ZERO_BITS};
use crate::errors::{Error, ErrorKind};
use vstd::prelude::*;

verus! {

/// Available unit cell shapes.
#[derive(Clone, Copy, Debug, PartialEq, Eq, Structural)]
pub enum CellShape {
    /// Orthorhombic cell, with the three angles equals to 90°.
    Orthorhombic,
    /// Triclinic cell, with any values for the angles.
    Triclinic,
    /// Infinite cell, to use when there is no cell.
    Infinite,
}

/// The number by which the engine writes a shape in a value that crosses
/// its boundary.
pub open spec fn code_of(shape: CellShape) -> int {
    match shape {
        CellShape::Orthorhombic => 0,
        CellShape::Triclinic => 1,
        CellShape::Infinite => 2,
    }
}

/// The shape that the engine writes as the number `code`, if there is one.
pub open spec fn shape_of(code: int) -> Option<CellShape> {
    if code == 0 {
        Some(CellShape::Orthorhombic)
    } else if code == 1 {
        Some(CellShape::Triclinic)
    } else if code == 2 {
        Some(CellShape::Infinite)
    } else {
        None
    }
}

impl CellShape {
    /// The shape that the engine writes as `code`, if there is one.
    pub fn from_code(code: u32) -> (r: Option<CellShape>)
        ensures
            r == shape_of(code as int),
    {
        match code {
            0 => Some(CellShape::Orthorhombic),
            1 => Some(CellShape::Triclinic),
            2 => Some(CellShape::Infinite),
            _ => None,
        }
    }

    /// The number by which the engine writes this shape.
    pub fn code(self) -> (r: u32)
        ensures
            r == code_of(self),
    {
        match self {
            CellShape::Orthorhombic => 0,
            CellShape::Triclinic => 1,
            CellShape::Infinite => 2,
        }
    }
}

/// A shape and its number stand for each other: the number of a shape reads
/// back as that shape, and a number that reads as a shape is that shape's.
pub proof fn law_shape_codes(shape: CellShape, code: int)
    ensures
        shape_of(code_of(shape)) == Some(shape),
        shape_of(code) == Some(shape) ==> code_of(shape) == code,
{
}

/// A length is valid when it is finite and not below zero.
pub open spec fn valid_length(d: Double) -> bool {
    d.finite() && d.scaled() >= 0
}

/// An angle, in degrees, is valid when it lies strictly between 0 and 180.
pub open spec fn valid_angle(d: Double) -> bool {
    !d.nan() && 0 < d.scaled() < 180 * unit()
}

/// Three valid lengths.
pub open spec fn valid_lengths(lengths: Seq<Double>) -> bool {
    &&& lengths.len() == 3
    &&& valid_length(lengths[0])
    &&& valid_length(lengths[1])
    &&& valid_length(lengths[2])
}

/// Three valid angles.
pub open spec fn valid_angles(angles: Seq<Double>) -> bool {
    &&& angles.len() == 3
    &&& valid_angle(angles[0])
    &&& valid_angle(angles[1])
    &&& valid_angle(angles[2])
}

/// Three angles of exactly 90 degrees.
pub open spec fn right_angles() -> Seq<Double> {
    seq![of_bits(RIGHT_ANGLE_BITS), of_bits(RIGHT_ANGLE_BITS), of_bits(RIGHT_ANGLE_BITS)]
}

/// Three lengths of exactly zero.
pub open spec fn zero_lengths() -> Seq<Double> {
    seq![of_bits(ZERO_BITS), of_bits(ZERO_BITS), of_bits(ZERO_BITS)]
}

/// The message of the error for lengths that are not valid.
pub open spec fn invalid_lengths_message() -> Seq<char> {
    "the lengths of a unit cell must be finite and not negative"@
}

/// The message of the error for angles that are not valid.
pub open spec fn invalid_angles_message() -> Seq<char> {
    "the angles of a unit cell must lie strictly between 0 and 180 degrees"@
}

/// The message of the error for setting angles on a cell that is not triclinic.
pub open spec fn fixed_angles_message() -> Seq<char> {
    "the angles can only be set on a triclinic unit cell"@
}

/// The basis matrix of a cell, as far as it is known without rounding. Its
/// columns are the three edges, the first along x and the second in the xy
/// plane, so that the matrix is upper triangular:
///
/// ```text
/// | a_x   b_x   c_x |
/// |  0    b_y   c_y |
/// |  0     0    c_z |
/// ```
pub enum BasisModel {
    /// All three angles are right angles: the matrix is diagonal, it holds
    /// the three lengths `(a, b, c)` in order, and every other entry is
    /// exactly zero.
    Diagonal(Seq<Double>),
    /// The matrix that these lengths `(a, b, c)` and these angles `(alpha,
    /// beta, gamma)`, in degrees, stand for:
    ///
    /// ```text
    /// a_x = a
    /// b_x = b cos(gamma)    b_y = b sin(gamma)
    /// c_x = c cos(beta)     c_y = c (cos(alpha) - cos(beta) cos(gamma)) / sin(gamma)
    /// c_z = sqrt(c^2 - c_x^2 - c_y^2)
    /// ```
    Oblique(Seq<Double>, Seq<Double>),
}

/// The volume of a cell, as far as it is known without rounding.
pub enum VolumeModel {
    /// Exactly zero.
    Zero,
    /// The product `a_x * b_y * c_z` of the diagonal of this basis.
    Diagonal(BasisModel),
}

/// The image of a vector under wrapping, as far as it is known without rounding.
pub enum ImageModel {
    /// The vector itself.
    Same(Seq<Double>),
    /// The image of the vector (second) in the cell of the basis (first):
    /// the vector less the whole number of edges that brings each of its
    /// coordinates along the edges nearest to zero.
    Folded(BasisModel, Seq<Double>),
}

/// What a unit cell is, mathematically: its shape and the lengths and angles
/// that it stores.
pub struct CellModel {
    pub shape: CellShape,
    pub stored_lengths: Seq<Double>,
    pub stored_angles: Seq<Double>,
}

impl CellModel {
    /// The invariant of a cell: valid lengths, valid angles, and right
    /// angles in store whenever the shape is orthorhombic.
    pub open spec fn wf(self) -> bool {
        &&& valid_lengths(self.stored_lengths)
        &&& valid_angles(self.stored_angles)
        &&& self.shape == CellShape::Orthorhombic ==> self.stored_angles == right_angles()
    }

    /// The orthorhombic cell with the given lengths, or the message of the
    /// error where they are not valid.
    pub open spec fn new(lengths: Seq<Double>) -> Result<CellModel, Seq<char>> {
        if valid_lengths(lengths) {
            Ok(
                CellModel {
                    shape: CellShape::Orthorhombic,
                    stored_lengths: lengths,
                    stored_angles: right_angles(),
                },
            )
        } else {
            Err(invalid_lengths_message())
        }
    }

    /// The triclinic cell with the given lengths and angles, or the message
    /// of the error where they are not valid. The lengths are looked at first.
    pub open spec fn triclinic(lengths: Seq<Double>, angles: Seq<Double>) -> Result<
        CellModel,
        Seq<char>,
    > {
        if !valid_lengths(lengths) {
            Err(invalid_lengths_message())
        } else if !valid_angles(angles) {
            Err(invalid_angles_message())
        } else {
            Ok(
                CellModel {
                    shape: CellShape::Triclinic,
                    stored_lengths: lengths,
                    stored_angles: angles,
                },
            )
        }
    }

    /// The infinite cell.
    pub open spec fn infinite() -> CellModel {
        CellModel {
            shape: CellShape::Infinite,
            stored_lengths: zero_lengths(),
            stored_angles: right_angles(),
        }
    }

    /// The lengths that the cell reports: zero for an infinite cell, the
    /// stored ones otherwise.
    pub open spec fn lengths(self) -> Seq<Double> {
        if self.shape == CellShape::Infinite {
            zero_lengths()
        } else {
            self.stored_lengths
        }
    }

    /// The angles that the cell reports: the stored ones for a triclinic
    /// cell, right angles otherwise.
    pub open spec fn angles(self) -> Seq<Double> {
        if self.shape == CellShape::Triclinic {
            self.stored_angles
        } else {
            right_angles()
        }
    }

    /// The cell with other lengths in store, or the message of the error
    /// where they are not valid.
    pub open spec fn set_lengths(self, lengths: Seq<Double>) -> Result<CellModel, Seq<char>> {
        if valid_lengths(lengths) {
            Ok(CellModel { stored_lengths: lengths, ..self })
        } else {
            Err(invalid_lengths_message())
        }
    }

    /// The cell with other angles in store, or the message of the error: only
    /// a triclinic cell takes angles, and only valid ones.
    pub open spec fn set_angles(self, angles: Seq<Double>) -> Result<CellModel, Seq<char>> {
        if self.shape != CellShape::Triclinic {
            Err(fixed_angles_message())
        } else if !valid_angles(angles) {
            Err(invalid_angles_message())
        } else {
            Ok(CellModel { stored_angles: angles, ..self })
        }
    }

    /// The cell under another shape. Going orthorhombic snaps the stored
    /// angles to right angles; nothing else in store changes.
    pub open spec fn set_shape(self, shape: CellShape) -> CellModel {
        CellModel {
            shape,
            stored_angles: if shape == CellShape::Orthorhombic {
                right_angles()
            } else {
                self.stored_angles
            },
            ..self
        }
    }

    /// The basis matrix of the stored lengths and angles, whatever the shape.
    pub open spec fn basis(self) -> BasisModel {
        if self.stored_angles == right_angles() {
            BasisModel::Diagonal(self.stored_lengths)
        } else {
            BasisModel::Oblique(self.stored_lengths, self.stored_angles)
        }
    }

    /// The volume: zero for an infinite cell, else the product of the
    /// diagonal of the basis.
    pub open spec fn volume(self) -> VolumeModel {
        if self.shape == CellShape::Infinite {
            VolumeModel::Zero
        } else {
            VolumeModel::Diagonal(self.basis())
        }
    }

    /// The image of `vector`: itself in an infinite cell, else its minimal
    /// image in the lattice of the basis.
    pub open spec fn wrap(self, vector: Seq<Double>) -> ImageModel {
        if self.shape == CellShape::Infinite {
            ImageModel::Same(vector)
        } else {
            ImageModel::Folded(self.basis(), vector)
        }
    }
}

/// Whether a constructor's result is the outcome that the model gives: the
/// cell, or an `InvalidArgument` error with the model's message.
pub open spec fn built(r: Result<UnitCell, Error>, outcome: Result<CellModel, Seq<char>>) -> bool {
    match outcome {
        Ok(model) => r matches Ok(cell) && cell@ == model,
        Err(message) => r matches Err(e) && e.kind == ErrorKind::InvalidArgument && e.message@
            == message,
    }
}

/// Whether a setter's result and the cell it leaves are the outcome that the
/// model gives: the changed cell, or an `InvalidArgument` error with the
/// model's message and the cell as it was.
pub open spec fn changed(
    r: Result<(), Error>,
    before: CellModel,
    after: CellModel,
    outcome: Result<CellModel, Seq<char>>,
) -> bool {
    match outcome {
        Ok(model) => r is Ok && after == model,
        Err(message) => r matches Err(e) && e.kind == ErrorKind::InvalidArgument && e.message@
            == message && after == before,
    }
}

/// The basis matrix of a cell, ready to be evaluated: see [`BasisModel`].
#[derive(Clone, Copy, Debug, PartialEq)]
pub enum Basis {
    /// The diagonal matrix of these three lengths.
    Diagonal([Double; 3]),
    /// The upper triangular matrix built from lengths and angles.
    Oblique { lengths: [Double; 3], angles: [Double; 3] },
}

impl View for Basis {
    type V = BasisModel;

    open spec fn view(&self) -> BasisModel {
        match *self {
            Basis::Diagonal(lengths) => BasisModel::Diagonal(lengths@),
            Basis::Oblique { lengths, angles } => BasisModel::Oblique(lengths@, angles@),
        }
    }
}

/// The volume of a cell, ready to be evaluated: see [`VolumeModel`].
#[derive(Clone, Copy, Debug, PartialEq)]
pub enum Volume {
    /// Exactly zero.
    Zero,
    /// The product of the three diagonal entries of this basis, taken in order.
    Diagonal(Basis),
}

impl View for Volume {
    type V = VolumeModel;

    open spec fn view(&self) -> VolumeModel {
        match *self {
            Volume::Zero => VolumeModel::Zero,
            Volume::Diagonal(basis) => VolumeModel::Diagonal(basis@),
        }
    }
}

/// A wrapped vector, ready to be evaluated: see [`ImageModel`].
#[derive(Clone, Copy, Debug, PartialEq)]
pub enum Image {
    /// The vector itself.
    Same([Double; 3]),
    /// The minimal image of `vector` in the lattice of `basis`.
    Folded { basis: Basis, vector: [Double; 3] },
}

impl View for Image {
    type V = ImageModel;

    open spec fn view(&self) -> ImageModel {
        match *self {
            Image::Same(vector) => ImageModel::Same(vector@),
            Image::Folded { basis, vector } => ImageModel::Folded(basis@, vector@),
        }
    }
}

/// An `UnitCell` represent the box containing the atoms, and its periodicity.
///
/// An unit cell is fully represented by three lengths (a, b, c); and three
/// angles (alpha, beta, gamma). The angles are stored in degrees, and the
/// lengths in Angstroms.
#[derive(Clone, Copy, Debug)]
pub struct UnitCell {
    shape: CellShape,
    lengths: [Double; 3],
    angles: [Double; 3],
}

impl View for UnitCell {
    type V = CellModel;

    closed spec fn view(&self) -> CellModel {
        CellModel {
            shape: self.shape,
            stored_lengths: self.lengths@,
            stored_angles: self.angles@,
        }
    }
}

/// Whether the three lengths are valid.
fn lengths_are_valid(lengths: &[Double; 3]) -> (r: bool)
    ensures
        r == valid_lengths(lengths@),
{
    proof {
        lemma_constants();
    }
    let zero = Double::zero();
    lengths[0].is_finite() && !lengths[0].lt(zero) && lengths[1].is_finite() && !lengths[1].lt(
        zero,
    ) && lengths[2].is_finite() && !lengths[2].lt(zero)
}

/// Whether the three angles are valid.
fn angles_are_valid(angles: &[Double; 3]) -> (r: bool)
    ensures
        r == valid_angles(angles@),
{
    proof {
        lemma_constants();
    }
    let zero = Double::zero();
    let straight = Double::straight_angle();
    zero.lt(angles[0]) && angles[0].lt(straight) && zero.lt(angles[1]) && angles[1].lt(straight)
        && zero.lt(angles[2]) && angles[2].lt(straight)
}

/// Whether the three angles are right angles, bit for bit.
fn angles_are_right(angles: &[Double; 3]) -> (r: bool)
    ensures
        r == (angles@ == right_angles()),
{
    let right = Double::right_angle();
    let r = angles[0] == right && angles[1] == right && angles[2] == right;
    proof {
        if r {
            assert(angles@ =~= right_angles());
        }
    }
    r
}

impl UnitCell {
    #[verifier::type_invariant]
    spec fn inv(self) -> bool {
        self@.wf()
    }

    /// Create an `Orthorhombic` `UnitCell` from the three lengths, in Angstroms.
    ///
    /// Lengths of zero are accepted, and the cell stays orthorhombic.
    pub fn new(lengths: [Double; 3]) -> (r: Result<UnitCell, Error>)
        ensures
            built(r, CellModel::new(lengths@)),
            r matches Ok(cell) ==> cell@.wf(),
    {
        if !lengths_are_valid(&lengths) {
            return Err(
                Error::invalid_argument(
                    "the lengths of a unit cell must be finite and not negative",
                ),
            );
        }
        proof {
            lemma_right_angles_valid();
        }
        let right = Double::right_angle();
        let angles = [right, right, right];
        assert(angles@ =~= right_angles());
        Ok(UnitCell { shape: CellShape::Orthorhombic, lengths, angles })
    }

    /// Create an `Infinite` `UnitCell`.
    pub fn infinite() -> (r: Result<UnitCell, Error>)
        ensures
            r matches Ok(cell) && cell@ == CellModel::infinite() && cell@.wf(),
    {
        proof {
            lemma_right_angles_valid();
            lemma_constants();
        }
        let zero = Double::zero();
        let right = Double::right_angle();
        let lengths = [zero, zero, zero];
        let angles = [right, right, right];
        assert(lengths@ =~= zero_lengths());
        assert(angles@ =~= right_angles());
        Ok(UnitCell { shape: CellShape::Infinite, lengths, angles })
    }

    /// Create an `Triclinic` `UnitCell` from the three lengths (in Angstroms)
    /// and three angles (in degree). `alpha` is the angle between the vectors
    /// `b` and `c`; `beta` is the between the vectors `a` and `c` and `gamma`
    /// is the angle between the vectors `a` and `b`.
    pub fn triclinic(lengths: [Double; 3], angles: [Double; 3]) -> (r: Result<UnitCell, Error>)
        ensures
            built(r, CellModel::triclinic(lengths@, angles@)),
            r matches Ok(cell) ==> cell@.wf(),
    {
        if !lengths_are_valid(&lengths) {
            return Err(
                Error::invalid_argument(
                    "the lengths of a unit cell must be finite and not negative",
                ),
            );
        }
        if !angles_are_valid(&angles) {
            return Err(
                Error::invalid_argument(
                    "the angles of a unit cell must lie strictly between 0 and 180 degrees",
                ),
            );
        }
        Ok(UnitCell { shape: CellShape::Triclinic, lengths, angles })
    }

    /// Get the three lengths of the cell, in Angstroms.
    pub fn lengths(&self) -> (r: Result<[Double; 3], Error>)
        ensures
            r matches Ok(lengths) && lengths@ == self@.lengths(),
            self@.wf(),
    {
        proof {
            use_type_invariant(self);
        }
        if self.shape == CellShape::Infinite {
            let zero = Double::zero();
            let lengths = [zero, zero, zero];
            assert(lengths@ =~= zero_lengths());
            Ok(lengths)
        } else {
            Ok(self.lengths)
        }
    }

    /// Set the three lengths of the cell, in Angstroms. The angles stay as
    /// they are. Lengths that are not valid are refused and nothing changes.
    pub fn set_lengths(&mut self, lengths: [Double; 3]) -> (r: Result<(), Error>)
        ensures
            changed(r, old(self)@, final(self)@, old(self)@.set_lengths(lengths@)),
            final(self)@.wf(),
    {
        proof {
            use_type_invariant(&*self);
        }
        if !lengths_are_valid(&lengths) {
            return Err(
                Error::invalid_argument(
                    "the lengths of a unit cell must be finite and not negative",
                ),
            );
        }
        self.lengths = lengths;
        Ok(())
    }

    /// Get the three angles of the cell, in degrees.
    pub fn angles(&self) -> (r: Result<[Double; 3], Error>)
        ensures
            r matches Ok(angles) && angles@ == self@.angles(),
            self@.wf(),
    {
        proof {
            use_type_invariant(self);
        }
        if self.shape == CellShape::Triclinic {
            Ok(self.angles)
        } else {
            let right = Double::right_angle();
            let angles = [right, right, right];
            assert(angles@ =~= right_angles());
            Ok(angles)
        }
    }

    /// Set the three angles of the cell, in degrees. This is only possible
    /// with `Triclinic` cells. Where it fails nothing changes.
    pub fn set_angles(&mut self, angles: [Double; 3]) -> (r: Result<(), Error>)
        ensures
            changed(r, old(self)@, final(self)@, old(self)@.set_angles(angles@)),
            final(self)@.wf(),
    {
        proof {
            use_type_invariant(&*self);
        }
        if self.shape != CellShape::Triclinic {
            return Err(
                Error::invalid_argument("the angles can only be set on a triclinic unit cell"),
            );
        }
        if !angles_are_valid(&angles) {
            return Err(
                Error::invalid_argument(
                    "the angles of a unit cell must lie strictly between 0 and 180 degrees",
                ),
            );
        }
        self.angles = angles;
        Ok(())
    }

    /// Get the unit cell matricial representation.
    ///
    /// The unit cell representation is obtained by aligning the a vector along
    /// the *x* axis and putting the b vector in the *xy* plane. This make the
    /// matrix an upper triangular matrix:
    ///
    /// ```text
    /// | a_x   b_x   c_x |
    /// |  0    b_y   c_y |
    /// |  0     0    c_z |
    /// ```
    ///
    /// With three right angles in store the matrix is the diagonal of the
    /// stored lengths. Otherwise it is built from the stored lengths and
    /// angles, which the result hands out for that purpose.
    pub fn matrix(&self) -> (r: Result<Basis, Error>)
        ensures
            r matches Ok(basis) && basis@ == self@.basis(),
    {
        if angles_are_right(&self.angles) {
            Ok(Basis::Diagonal(self.lengths))
        } else {
            Ok(Basis::Oblique { lengths: self.lengths, angles: self.angles })
        }
    }

    /// Get the shape of the unit cell.
    pub fn shape(&self) -> (r: Result<CellShape, Error>)
        ensures
            r == Ok::<CellShape, Error>(self@.shape),
            self@.wf(),
    {
        proof {
            use_type_invariant(self);
        }
        Ok(self.shape)
    }

    /// Set the shape of the unit cell to `shape`. Going orthorhombic sets
    /// the angles to 90°; the lengths in store never change.
    pub fn set_shape(&mut self, shape: CellShape) -> (r: Result<(), Error>)
        ensures
            r is Ok,
            final(self)@ == old(self)@.set_shape(shape),
            final(self)@.wf(),
    {
        proof {
            use_type_invariant(&*self);
            lemma_right_angles_valid();
        }
        if shape == CellShape::Orthorhombic {
            let right = Double::right_angle();
            let angles = [right, right, right];
            assert(angles@ =~= right_angles());
            self.angles = angles;
        }
        self.shape = shape;
        Ok(())
    }

    /// Get the volume of the unit cell: zero for an infinite cell, else the
    /// product of the diagonal of its matrix.
    pub fn volume(&self) -> (r: Result<Volume, Error>)
        ensures
            r matches Ok(volume) && volume@ == self@.volume(),
    {
        if self.shape == CellShape::Infinite {
            Ok(Volume::Zero)
        } else if angles_are_right(&self.angles) {
            Ok(Volume::Diagonal(Basis::Diagonal(self.lengths)))
        } else {
            Ok(Volume::Diagonal(Basis::Oblique { lengths: self.lengths, angles: self.angles }))
        }
    }

    /// Wrap a `vector` in this unit cell: an infinite cell leaves it as it
    /// is, any other cell asks for its minimal image.
    pub fn wrap(&self, vector: &[Double; 3]) -> (r: Result<Image, Error>)
        ensures
            r matches Ok(image) && image@ == self@.wrap(vector@),
    {
        if self.shape == CellShape::Infinite {
            Ok(Image::Same(*vector))
        } else if angles_are_right(&self.angles) {
            Ok(Image::Folded { basis: Basis::Diagonal(self.lengths), vector: *vector })
        } else {
            Ok(
                Image::Folded {
                    basis: Basis::Oblique { lengths: self.lengths, angles: self.angles },
                    vector: *vector,
                },
            )
        }
    }
}

/// An analog to a reference to an unit cell (`&UnitCell`)
pub struct UnitCellRef<'a> {
    pub inner: &'a UnitCell,
}

impl<'a> core::ops::Deref for UnitCellRef<'a> {
    type Target = UnitCell;

    fn deref(&self) -> (r: &UnitCell)
        ensures
            r == self.inner,
    {
        self.inner
    }
}

/// An analog to a mutable reference to an unit cell (`&mut UnitCell`)
pub struct UnitCellMut<'a> {
    pub inner: &'a mut UnitCell,
}

impl<'a> core::ops::Deref for UnitCellMut<'a> {
    type Target = UnitCell;

    fn deref(&self) -> (r: &UnitCell)
        ensures
            *r == *old(self.inner),
    {
        &*self.inner
    }
}

impl<'a> core::ops::DerefMut for UnitCellMut<'a> {
    fn deref_mut(&mut self) -> (r: &mut UnitCell)
        ensures
            *r == *old(self).inner,
            *final(self).inner == *final(r),
            *final(final(self).inner) == *final(old(self).inner),
    {
        &mut *self.inner
    }
}

/// Right angles are valid angles, and lengths of zero are valid lengths.
pub proof fn lemma_right_angles_valid()
    ensures
        valid_angles(right_angles()),
        valid_lengths(zero_lengths()),
{
    lemma_constants();
}

/// Every operation keeps the invariant: what the constructors build is well
/// formed, and a well-formed cell stays so under each setter.
pub proof fn law_well_formed(cell: CellModel, lengths: Seq<Double>, angles: Seq<Double>, shape: CellShape)
    requires
        cell.wf(),
    ensures
        CellModel::new(lengths) matches Ok(made) ==> made.wf(),
        CellModel::triclinic(lengths, angles) matches Ok(made) ==> made.wf(),
        CellModel::infinite().wf(),
        cell.set_lengths(lengths) matches Ok(next) ==> next.wf(),
        cell.set_angles(angles) matches Ok(next) ==> next.wf(),
        cell.set_shape(shape).wf(),
{
    lemma_right_angles_valid();
}

/// Lengths and angles are read back exactly as they were given: a cell made
/// from valid lengths and angles reports those very numbers, bit for bit.
pub proof fn law_reads_back(lengths: Seq<Double>, angles: Seq<Double>)
    requires
        valid_lengths(lengths),
        valid_angles(angles),
    ensures
        CellModel::triclinic(lengths, angles) matches Ok(cell) && cell.lengths() == lengths
            && cell.angles() == angles,
        CellModel::new(lengths) matches Ok(cell) && cell.lengths() == lengths,
{
}

/// What is set is what is read: after a successful change of lengths or of
/// angles the cell reports the new numbers, unless its shape overrides them.
pub proof fn law_set_then_get(cell: CellModel, lengths: Seq<Double>, angles: Seq<Double>)
    ensures
        cell.set_lengths(lengths) matches Ok(next) ==> next.angles() == cell.angles() && (
        cell.shape != CellShape::Infinite ==> next.lengths() == lengths),
        cell.set_angles(angles) matches Ok(next) ==> next.angles() == angles && next.lengths()
            == cell.lengths(),
{
}

/// An orthorhombic cell has three angles of exactly 90 degrees, and refuses
/// every change of its angles. So does an infinite cell.
pub proof fn law_fixed_angles(cell: CellModel, angles: Seq<Double>)
    requires
        cell.shape != CellShape::Triclinic,
    ensures
        cell.angles() == right_angles(),
        cell.set_angles(angles) == Err::<CellModel, Seq<char>>(fixed_angles_message()),
{
}

/// A change of shape leaves the stored lengths alone, and changes the stored
/// angles only by snapping them to right angles on the way to orthorhombic.
pub proof fn law_shape_change(cell: CellModel, shape: CellShape)
    ensures
        cell.set_shape(shape).shape == shape,
        cell.set_shape(shape).stored_lengths == cell.stored_lengths,
        shape != CellShape::Orthorhombic ==> cell.set_shape(shape).stored_angles
            == cell.stored_angles,
        shape == CellShape::Orthorhombic ==> cell.set_shape(shape).basis() == BasisModel::Diagonal(
            cell.stored_lengths,
        ),
        shape == CellShape::Triclinic ==> cell.set_shape(shape).basis() == cell.basis(),
{
}

/// The volume of the orthorhombic cell made from three lengths is the
/// product of exactly those three lengths: its basis has no other entry.
pub proof fn law_orthorhombic_volume(lengths: Seq<Double>)
    requires
        valid_lengths(lengths),
    ensures
        CellModel::new(lengths) matches Ok(cell) && cell.basis() == BasisModel::Diagonal(lengths)
            && cell.volume() == VolumeModel::Diagonal(BasisModel::Diagonal(lengths)),
{
}

/// An infinite cell encloses no volume and wraps nothing: its volume is
/// zero, and every vector is its own image, however often it is wrapped.
pub proof fn law_infinite(cell: CellModel, vector: Seq<Double>)
    requires
        cell.shape == CellShape::Infinite,
    ensures
        cell.volume() == VolumeModel::Zero,
        cell.wrap(vector) == ImageModel::Same(vector),
        cell.lengths() == zero_lengths(),
        cell.angles() == right_angles(),
        CellModel::infinite().shape == CellShape::Infinite,
{
}

/// A change made to a copy does not reach the cell it was copied from: the
/// changed copy reports the new lengths, the source what it reported before.
pub proof fn law_copy_is_independent(source: CellModel, copy: CellModel, lengths: Seq<Double>)
    requires
        copy == source,
        source.shape != CellShape::Infinite,
    ensures
        copy.set_lengths(lengths) matches Ok(next) ==> next.lengths() == lengths
            && source.lengths() == copy.lengths(),
{
}

} // verus!
