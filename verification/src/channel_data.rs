//! Event projection onto the wide columnar schema.
//!
//! Each detector role in the channel map contributes its columns (energy,
//! short-gate energy, time, and for liquid scintillators a pulse-shape
//! value); cross-detector columns (focal-plane positions, relative times)
//! appear only when every role they read is mapped. Per event, every
//! filtered column receives exactly one cell; a column no hit touched stays
//! `Unset`, which renders as the invalid sentinel downstream.
//!
//! Cells carry the exact integer quantities the columns are computed from
//! (raw amplitudes, picosecond times and time differences); turning them
//! into floating-point physics values is the caller's final rendering step.

use vstd::prelude::*;

use crate::channel_map::ChannelData as RoleData;
use crate::channel_map::ChannelMap;
use crate::channel_map::ChannelType;
use crate::channel_map::spec_contains_role;
use crate::channel_map::spec_lookup;
use crate::hit::Hit;
use crate::hit::channel_uuid;
use crate::hit::spec_channel_uuid;

verus! {

/// The columns of the projection schema, in their on-disk order.
#[derive(Clone, Copy, Debug, PartialEq, Eq, Structural)]
pub enum ChannelDataField {
    AnodeFrontEnergy,
    AnodeFrontShort,
    AnodeFrontTime,
    AnodeBackEnergy,
    AnodeBackShort,
    AnodeBackTime,
    ScintLeftEnergy,
    ScintLeftShort,
    ScintLeftTime,
    ScintRightEnergy,
    ScintRightShort,
    ScintRightTime,
    CathodeEnergy,
    CathodeShort,
    CathodeTime,
    DelayFrontLeftEnergy,
    DelayFrontLeftShort,
    DelayFrontLeftTime,
    DelayFrontRightEnergy,
    DelayFrontRightShort,
    DelayFrontRightTime,
    DelayBackLeftEnergy,
    DelayBackLeftShort,
    DelayBackLeftTime,
    DelayBackRightEnergy,
    DelayBackRightShort,
    DelayBackRightTime,
    MonitorEnergy,
    MonitorShort,
    MonitorTime,
    X1,
    X2,
    Xavg,
    Theta,
    Cebra0Energy,
    Cebra1Energy,
    Cebra2Energy,
    Cebra3Energy,
    Cebra4Energy,
    Cebra5Energy,
    Cebra6Energy,
    Cebra7Energy,
    Cebra8Energy,
    Cebra0Short,
    Cebra1Short,
    Cebra2Short,
    Cebra3Short,
    Cebra4Short,
    Cebra5Short,
    Cebra6Short,
    Cebra7Short,
    Cebra8Short,
    Cebra0Time,
    Cebra1Time,
    Cebra2Time,
    Cebra3Time,
    Cebra4Time,
    Cebra5Time,
    Cebra6Time,
    Cebra7Time,
    Cebra8Time,
    Cebra0RelTime,
    Cebra1RelTime,
    Cebra2RelTime,
    Cebra3RelTime,
    Cebra4RelTime,
    Cebra5RelTime,
    Cebra6RelTime,
    Cebra7RelTime,
    Cebra8RelTime,
    PIPS1000Energy,
    PIPS500Energy,
    PIPS300Energy,
    PIPS100Energy,
    PIPS1000Time,
    PIPS500Time,
    PIPS300Time,
    PIPS100Time,
    PIPS1000RelTime,
    PIPS500RelTime,
    PIPS300RelTime,
    PIPS100RelTime,
    PIPS1000RelTimeToPIPS500,
    PIPS1000RelTimeToPIPS300,
    CATRINA0Energy,
    CATRINA1Energy,
    CATRINA2Energy,
    CATRINA3Energy,
    CATRINA4Energy,
    CATRINA5Energy,
    CATRINA6Energy,
    CATRINA7Energy,
    CATRINA8Energy,
    CATRINA9Energy,
    CATRINA10Energy,
    CATRINA11Energy,
    CATRINA12Energy,
    CATRINA13Energy,
    CATRINA14Energy,
    CATRINA15Energy,
    CATRINA0Short,
    CATRINA1Short,
    CATRINA2Short,
    CATRINA3Short,
    CATRINA4Short,
    CATRINA5Short,
    CATRINA6Short,
    CATRINA7Short,
    CATRINA8Short,
    CATRINA9Short,
    CATRINA10Short,
    CATRINA11Short,
    CATRINA12Short,
    CATRINA13Short,
    CATRINA14Short,
    CATRINA15Short,
    CATRINA0Time,
    CATRINA1Time,
    CATRINA2Time,
    CATRINA3Time,
    CATRINA4Time,
    CATRINA5Time,
    CATRINA6Time,
    CATRINA7Time,
    CATRINA8Time,
    CATRINA9Time,
    CATRINA10Time,
    CATRINA11Time,
    CATRINA12Time,
    CATRINA13Time,
    CATRINA14Time,
    CATRINA15Time,
    CATRINA0PSD,
    CATRINA1PSD,
    CATRINA2PSD,
    CATRINA3PSD,
    CATRINA4PSD,
    CATRINA5PSD,
    CATRINA6PSD,
    CATRINA7PSD,
    CATRINA8PSD,
    CATRINA9PSD,
    CATRINA10PSD,
    CATRINA11PSD,
    CATRINA12PSD,
    CATRINA13PSD,
    CATRINA14PSD,
    CATRINA15PSD,
    LeftStrip0Energy,
    LeftStrip1Energy,
    LeftStrip2Energy,
    LeftStrip3Energy,
    LeftStrip4Energy,
    LeftStrip5Energy,
    LeftStrip6Energy,
    LeftStrip7Energy,
    LeftStrip8Energy,
    LeftStrip9Energy,
    LeftStrip10Energy,
    LeftStrip11Energy,
    LeftStrip12Energy,
    LeftStrip13Energy,
    LeftStrip14Energy,
    LeftStrip15Energy,
    LeftStrip0Time,
    LeftStrip1Time,
    LeftStrip2Time,
    LeftStrip3Time,
    LeftStrip4Time,
    LeftStrip5Time,
    LeftStrip6Time,
    LeftStrip7Time,
    LeftStrip8Time,
    LeftStrip9Time,
    LeftStrip10Time,
    LeftStrip11Time,
    LeftStrip12Time,
    LeftStrip13Time,
    LeftStrip14Time,
    LeftStrip15Time,
    RightStrip0Energy,
    RightStrip1Energy,
    RightStrip2Energy,
    RightStrip3Energy,
    RightStrip4Energy,
    RightStrip5Energy,
    RightStrip6Energy,
    RightStrip7Energy,
    RightStrip8Energy,
    RightStrip9Energy,
    RightStrip10Energy,
    RightStrip11Energy,
    RightStrip12Energy,
    RightStrip13Energy,
    RightStrip14Energy,
    RightStrip15Energy,
    RightStrip0Time,
    RightStrip1Time,
    RightStrip2Time,
    RightStrip3Time,
    RightStrip4Time,
    RightStrip5Time,
    RightStrip6Time,
    RightStrip7Time,
    RightStrip8Time,
    RightStrip9Time,
    RightStrip10Time,
    RightStrip11Time,
    RightStrip12Time,
    RightStrip13Time,
    RightStrip14Time,
    RightStrip15Time,
    Strip0Energy,
    Strip17Energy,
    Strip0Time,
    Strip17Time,
    RF,
}

/// One cell of a row: the integer quantities the column's value is computed
/// from. `Unset` renders as the invalid sentinel.
#[derive(Clone, Copy, Debug, PartialEq, Eq, Structural)]
pub enum CellValue {
    /// No hit touched this column in this event.
    Unset,
    /// A raw amplitude (energy or short-gate energy), as recorded.
    Amplitude(u16),
    /// An absolute timestamp in picoseconds.
    TimePs(u64),
    /// A time difference in picoseconds (relative-time columns).
    DeltaPs(i128),
    /// Delay-front left minus right time, picoseconds: the X1 input.
    FrontDiffPs(i128),
    /// Delay-back left minus right time, picoseconds: the X2 input.
    BackDiffPs(i128),
    /// Front and back delay-line differences, picoseconds: the input of the
    /// Theta and Xavg columns.
    FocalPair(i128, i128),
    /// (long, short) amplitudes of a liquid-scintillator hit: the input of
    /// the pulse-shape column.
    Psd(u16, u16),
}

/// All schema columns, in order.
pub open spec fn spec_all_fields() -> Seq<ChannelDataField> {
    seq![
        ChannelDataField::AnodeFrontEnergy,
        ChannelDataField::AnodeFrontShort,
        ChannelDataField::AnodeFrontTime,
        ChannelDataField::AnodeBackEnergy,
        ChannelDataField::AnodeBackShort,
        ChannelDataField::AnodeBackTime,
        ChannelDataField::ScintLeftEnergy,
        ChannelDataField::ScintLeftShort,
        ChannelDataField::ScintLeftTime,
        ChannelDataField::ScintRightEnergy,
        ChannelDataField::ScintRightShort,
        ChannelDataField::ScintRightTime,
        ChannelDataField::CathodeEnergy,
        ChannelDataField::CathodeShort,
        ChannelDataField::CathodeTime,
        ChannelDataField::DelayFrontLeftEnergy,
        ChannelDataField::DelayFrontLeftShort,
        ChannelDataField::DelayFrontLeftTime,
        ChannelDataField::DelayFrontRightEnergy,
        ChannelDataField::DelayFrontRightShort,
        ChannelDataField::DelayFrontRightTime,
        ChannelDataField::DelayBackLeftEnergy,
        ChannelDataField::DelayBackLeftShort,
        ChannelDataField::DelayBackLeftTime,
        ChannelDataField::DelayBackRightEnergy,
        ChannelDataField::DelayBackRightShort,
        ChannelDataField::DelayBackRightTime,
        ChannelDataField::MonitorEnergy,
        ChannelDataField::MonitorShort,
        ChannelDataField::MonitorTime,
        ChannelDataField::X1,
        ChannelDataField::X2,
        ChannelDataField::Xavg,
        ChannelDataField::Theta,
        ChannelDataField::Cebra0Energy,
        ChannelDataField::Cebra1Energy,
        ChannelDataField::Cebra2Energy,
        ChannelDataField::Cebra3Energy,
        ChannelDataField::Cebra4Energy,
        ChannelDataField::Cebra5Energy,
        ChannelDataField::Cebra6Energy,
        ChannelDataField::Cebra7Energy,
        ChannelDataField::Cebra8Energy,
        ChannelDataField::Cebra0Short,
        ChannelDataField::Cebra1Short,
        ChannelDataField::Cebra2Short,
        ChannelDataField::Cebra3Short,
        ChannelDataField::Cebra4Short,
        ChannelDataField::Cebra5Short,
        ChannelDataField::Cebra6Short,
        ChannelDataField::Cebra7Short,
        ChannelDataField::Cebra8Short,
        ChannelDataField::Cebra0Time,
        ChannelDataField::Cebra1Time,
        ChannelDataField::Cebra2Time,
        ChannelDataField::Cebra3Time,
        ChannelDataField::Cebra4Time,
        ChannelDataField::Cebra5Time,
        ChannelDataField::Cebra6Time,
        ChannelDataField::Cebra7Time,
        ChannelDataField::Cebra8Time,
        ChannelDataField::Cebra0RelTime,
        ChannelDataField::Cebra1RelTime,
        ChannelDataField::Cebra2RelTime,
        ChannelDataField::Cebra3RelTime,
        ChannelDataField::Cebra4RelTime,
        ChannelDataField::Cebra5RelTime,
        ChannelDataField::Cebra6RelTime,
        ChannelDataField::Cebra7RelTime,
        ChannelDataField::Cebra8RelTime,
        ChannelDataField::PIPS1000Energy,
        ChannelDataField::PIPS500Energy,
        ChannelDataField::PIPS300Energy,
        ChannelDataField::PIPS100Energy,
        ChannelDataField::PIPS1000Time,
        ChannelDataField::PIPS500Time,
        ChannelDataField::PIPS300Time,
        ChannelDataField::PIPS100Time,
        ChannelDataField::PIPS1000RelTime,
        ChannelDataField::PIPS500RelTime,
        ChannelDataField::PIPS300RelTime,
        ChannelDataField::PIPS100RelTime,
        ChannelDataField::PIPS1000RelTimeToPIPS500,
        ChannelDataField::PIPS1000RelTimeToPIPS300,
        ChannelDataField::CATRINA0Energy,
        ChannelDataField::CATRINA1Energy,
        ChannelDataField::CATRINA2Energy,
        ChannelDataField::CATRINA3Energy,
        ChannelDataField::CATRINA4Energy,
        ChannelDataField::CATRINA5Energy,
        ChannelDataField::CATRINA6Energy,
        ChannelDataField::CATRINA7Energy,
        ChannelDataField::CATRINA8Energy,
        ChannelDataField::CATRINA9Energy,
        ChannelDataField::CATRINA10Energy,
        ChannelDataField::CATRINA11Energy,
        ChannelDataField::CATRINA12Energy,
        ChannelDataField::CATRINA13Energy,
        ChannelDataField::CATRINA14Energy,
        ChannelDataField::CATRINA15Energy,
        ChannelDataField::CATRINA0Short,
        ChannelDataField::CATRINA1Short,
        ChannelDataField::CATRINA2Short,
        ChannelDataField::CATRINA3Short,
        ChannelDataField::CATRINA4Short,
        ChannelDataField::CATRINA5Short,
        ChannelDataField::CATRINA6Short,
        ChannelDataField::CATRINA7Short,
        ChannelDataField::CATRINA8Short,
        ChannelDataField::CATRINA9Short,
        ChannelDataField::CATRINA10Short,
        ChannelDataField::CATRINA11Short,
        ChannelDataField::CATRINA12Short,
        ChannelDataField::CATRINA13Short,
        ChannelDataField::CATRINA14Short,
        ChannelDataField::CATRINA15Short,
        ChannelDataField::CATRINA0Time,
        ChannelDataField::CATRINA1Time,
        ChannelDataField::CATRINA2Time,
        ChannelDataField::CATRINA3Time,
        ChannelDataField::CATRINA4Time,
        ChannelDataField::CATRINA5Time,
        ChannelDataField::CATRINA6Time,
        ChannelDataField::CATRINA7Time,
        ChannelDataField::CATRINA8Time,
        ChannelDataField::CATRINA9Time,
        ChannelDataField::CATRINA10Time,
        ChannelDataField::CATRINA11Time,
        ChannelDataField::CATRINA12Time,
        ChannelDataField::CATRINA13Time,
        ChannelDataField::CATRINA14Time,
        ChannelDataField::CATRINA15Time,
        ChannelDataField::CATRINA0PSD,
        ChannelDataField::CATRINA1PSD,
        ChannelDataField::CATRINA2PSD,
        ChannelDataField::CATRINA3PSD,
        ChannelDataField::CATRINA4PSD,
        ChannelDataField::CATRINA5PSD,
        ChannelDataField::CATRINA6PSD,
        ChannelDataField::CATRINA7PSD,
        ChannelDataField::CATRINA8PSD,
        ChannelDataField::CATRINA9PSD,
        ChannelDataField::CATRINA10PSD,
        ChannelDataField::CATRINA11PSD,
        ChannelDataField::CATRINA12PSD,
        ChannelDataField::CATRINA13PSD,
        ChannelDataField::CATRINA14PSD,
        ChannelDataField::CATRINA15PSD,
        ChannelDataField::LeftStrip0Energy,
        ChannelDataField::LeftStrip1Energy,
        ChannelDataField::LeftStrip2Energy,
        ChannelDataField::LeftStrip3Energy,
        ChannelDataField::LeftStrip4Energy,
        ChannelDataField::LeftStrip5Energy,
        ChannelDataField::LeftStrip6Energy,
        ChannelDataField::LeftStrip7Energy,
        ChannelDataField::LeftStrip8Energy,
        ChannelDataField::LeftStrip9Energy,
        ChannelDataField::LeftStrip10Energy,
        ChannelDataField::LeftStrip11Energy,
        ChannelDataField::LeftStrip12Energy,
        ChannelDataField::LeftStrip13Energy,
        ChannelDataField::LeftStrip14Energy,
        ChannelDataField::LeftStrip15Energy,
        ChannelDataField::LeftStrip0Time,
        ChannelDataField::LeftStrip1Time,
        ChannelDataField::LeftStrip2Time,
        ChannelDataField::LeftStrip3Time,
        ChannelDataField::LeftStrip4Time,
        ChannelDataField::LeftStrip5Time,
        ChannelDataField::LeftStrip6Time,
        ChannelDataField::LeftStrip7Time,
        ChannelDataField::LeftStrip8Time,
        ChannelDataField::LeftStrip9Time,
        ChannelDataField::LeftStrip10Time,
        ChannelDataField::LeftStrip11Time,
        ChannelDataField::LeftStrip12Time,
        ChannelDataField::LeftStrip13Time,
        ChannelDataField::LeftStrip14Time,
        ChannelDataField::LeftStrip15Time,
        ChannelDataField::RightStrip0Energy,
        ChannelDataField::RightStrip1Energy,
        ChannelDataField::RightStrip2Energy,
        ChannelDataField::RightStrip3Energy,
        ChannelDataField::RightStrip4Energy,
        ChannelDataField::RightStrip5Energy,
        ChannelDataField::RightStrip6Energy,
        ChannelDataField::RightStrip7Energy,
        ChannelDataField::RightStrip8Energy,
        ChannelDataField::RightStrip9Energy,
        ChannelDataField::RightStrip10Energy,
        ChannelDataField::RightStrip11Energy,
        ChannelDataField::RightStrip12Energy,
        ChannelDataField::RightStrip13Energy,
        ChannelDataField::RightStrip14Energy,
        ChannelDataField::RightStrip15Energy,
        ChannelDataField::RightStrip0Time,
        ChannelDataField::RightStrip1Time,
        ChannelDataField::RightStrip2Time,
        ChannelDataField::RightStrip3Time,
        ChannelDataField::RightStrip4Time,
        ChannelDataField::RightStrip5Time,
        ChannelDataField::RightStrip6Time,
        ChannelDataField::RightStrip7Time,
        ChannelDataField::RightStrip8Time,
        ChannelDataField::RightStrip9Time,
        ChannelDataField::RightStrip10Time,
        ChannelDataField::RightStrip11Time,
        ChannelDataField::RightStrip12Time,
        ChannelDataField::RightStrip13Time,
        ChannelDataField::RightStrip14Time,
        ChannelDataField::RightStrip15Time,
        ChannelDataField::Strip0Energy,
        ChannelDataField::Strip17Energy,
        ChannelDataField::Strip0Time,
        ChannelDataField::Strip17Time,
        ChannelDataField::RF,
    ]
}

/// The last hit of the event whose channel maps to `role`; later hits
/// overwrite earlier ones of the same role.
pub open spec fn spec_last_role_hit(
    event: Seq<Hit>,
    m: Seq<(u32, RoleData)>,
    role: ChannelType,
) -> Option<Hit>
    decreases event.len(),
{
    if event.len() == 0 {
        Option::None
    } else if spec_lookup(m, spec_channel_uuid(event.last().board, event.last().channel))
        == Option::Some(RoleData { channel_type: role }) {
        Option::Some(event.last())
    } else {
        spec_last_role_hit(event.drop_last(), m, role)
    }
}

pub open spec fn spec_energy_cell(o: Option<Hit>) -> CellValue {
    match o {
        Option::Some(h) => CellValue::Amplitude(h.energy),
        Option::None => CellValue::Unset,
    }
}

pub open spec fn spec_short_cell(o: Option<Hit>) -> CellValue {
    match o {
        Option::Some(h) => CellValue::Amplitude(h.energy_short),
        Option::None => CellValue::Unset,
    }
}

pub open spec fn spec_time_cell(o: Option<Hit>) -> CellValue {
    match o {
        Option::Some(h) => CellValue::TimePs(h.timestamp_ps),
        Option::None => CellValue::Unset,
    }
}

pub open spec fn spec_psd_cell(o: Option<Hit>) -> CellValue {
    match o {
        Option::Some(h) => CellValue::Psd(h.energy, h.energy_short),
        Option::None => CellValue::Unset,
    }
}

/// Detector time minus reference time, when both are present.
pub open spec fn spec_delta_cell(det: Option<Hit>, reference: Option<Hit>) -> CellValue {
    match (det, reference) {
        (Option::Some(d), Option::Some(r)) => CellValue::DeltaPs(
            (d.timestamp_ps - r.timestamp_ps) as i128,
        ),
        _ => CellValue::Unset,
    }
}

/// Like `spec_delta_cell`, but additionally gated on a third hit being
/// present (the anode-back gate of the CeBrA relative times).
pub open spec fn spec_gated_delta_cell(
    det: Option<Hit>,
    reference: Option<Hit>,
    gate: Option<Hit>,
) -> CellValue {
    match (det, reference, gate) {
        (Option::Some(d), Option::Some(r), Option::Some(_g)) => CellValue::DeltaPs(
            (d.timestamp_ps - r.timestamp_ps) as i128,
        ),
        _ => CellValue::Unset,
    }
}

pub open spec fn spec_front_cell(dfl: Option<Hit>, dfr: Option<Hit>) -> CellValue {
    match (dfl, dfr) {
        (Option::Some(l), Option::Some(r)) => CellValue::FrontDiffPs(
            (l.timestamp_ps - r.timestamp_ps) as i128,
        ),
        _ => CellValue::Unset,
    }
}

pub open spec fn spec_back_cell(dbl: Option<Hit>, dbr: Option<Hit>) -> CellValue {
    match (dbl, dbr) {
        (Option::Some(l), Option::Some(r)) => CellValue::BackDiffPs(
            (l.timestamp_ps - r.timestamp_ps) as i128,
        ),
        _ => CellValue::Unset,
    }
}

pub open spec fn spec_focal_cell(
    dfl: Option<Hit>,
    dfr: Option<Hit>,
    dbl: Option<Hit>,
    dbr: Option<Hit>,
) -> CellValue {
    match (dfl, dfr, dbl, dbr) {
        (Option::Some(fl), Option::Some(fr), Option::Some(bl), Option::Some(br)) => CellValue::FocalPair(
            (fl.timestamp_ps - fr.timestamp_ps) as i128,
            (bl.timestamp_ps - br.timestamp_ps) as i128,
        ),
        _ => CellValue::Unset,
    }
}

/// The cell of column `f` for one event: which hits feed it and how.
pub open spec fn spec_cell_value(
    f: ChannelDataField,
    event: Seq<Hit>,
    m: Seq<(u32, RoleData)>,
    has_weights: bool,
) -> CellValue {
    match f {
        ChannelDataField::AnodeFrontEnergy => spec_energy_cell(spec_last_role_hit(event, m, ChannelType::AnodeFront)),
        ChannelDataField::AnodeFrontShort => spec_short_cell(spec_last_role_hit(event, m, ChannelType::AnodeFront)),
        ChannelDataField::AnodeFrontTime => spec_time_cell(spec_last_role_hit(event, m, ChannelType::AnodeFront)),
        ChannelDataField::AnodeBackEnergy => spec_energy_cell(spec_last_role_hit(event, m, ChannelType::AnodeBack)),
        ChannelDataField::AnodeBackShort => spec_short_cell(spec_last_role_hit(event, m, ChannelType::AnodeBack)),
        ChannelDataField::AnodeBackTime => spec_time_cell(spec_last_role_hit(event, m, ChannelType::AnodeBack)),
        ChannelDataField::ScintLeftEnergy => spec_energy_cell(spec_last_role_hit(event, m, ChannelType::ScintLeft)),
        ChannelDataField::ScintLeftShort => spec_short_cell(spec_last_role_hit(event, m, ChannelType::ScintLeft)),
        ChannelDataField::ScintLeftTime => spec_time_cell(spec_last_role_hit(event, m, ChannelType::ScintLeft)),
        ChannelDataField::ScintRightEnergy => spec_energy_cell(spec_last_role_hit(event, m, ChannelType::ScintRight)),
        ChannelDataField::ScintRightShort => spec_short_cell(spec_last_role_hit(event, m, ChannelType::ScintRight)),
        ChannelDataField::ScintRightTime => spec_time_cell(spec_last_role_hit(event, m, ChannelType::ScintRight)),
        ChannelDataField::CathodeEnergy => spec_energy_cell(spec_last_role_hit(event, m, ChannelType::Cathode)),
        ChannelDataField::CathodeShort => spec_short_cell(spec_last_role_hit(event, m, ChannelType::Cathode)),
        ChannelDataField::CathodeTime => spec_time_cell(spec_last_role_hit(event, m, ChannelType::Cathode)),
        ChannelDataField::DelayFrontLeftEnergy => spec_energy_cell(spec_last_role_hit(event, m, ChannelType::DelayFrontLeft)),
        ChannelDataField::DelayFrontLeftShort => spec_short_cell(spec_last_role_hit(event, m, ChannelType::DelayFrontLeft)),
        ChannelDataField::DelayFrontLeftTime => spec_time_cell(spec_last_role_hit(event, m, ChannelType::DelayFrontLeft)),
        ChannelDataField::DelayFrontRightEnergy => spec_energy_cell(spec_last_role_hit(event, m, ChannelType::DelayFrontRight)),
        ChannelDataField::DelayFrontRightShort => spec_short_cell(spec_last_role_hit(event, m, ChannelType::DelayFrontRight)),
        ChannelDataField::DelayFrontRightTime => spec_time_cell(spec_last_role_hit(event, m, ChannelType::DelayFrontRight)),
        ChannelDataField::DelayBackLeftEnergy => spec_energy_cell(spec_last_role_hit(event, m, ChannelType::DelayBackLeft)),
        ChannelDataField::DelayBackLeftShort => spec_short_cell(spec_last_role_hit(event, m, ChannelType::DelayBackLeft)),
        ChannelDataField::DelayBackLeftTime => spec_time_cell(spec_last_role_hit(event, m, ChannelType::DelayBackLeft)),
        ChannelDataField::DelayBackRightEnergy => spec_energy_cell(spec_last_role_hit(event, m, ChannelType::DelayBackRight)),
        ChannelDataField::DelayBackRightShort => spec_short_cell(spec_last_role_hit(event, m, ChannelType::DelayBackRight)),
        ChannelDataField::DelayBackRightTime => spec_time_cell(spec_last_role_hit(event, m, ChannelType::DelayBackRight)),
        ChannelDataField::MonitorEnergy => spec_energy_cell(spec_last_role_hit(event, m, ChannelType::Monitor)),
        ChannelDataField::MonitorShort => spec_short_cell(spec_last_role_hit(event, m, ChannelType::Monitor)),
        ChannelDataField::MonitorTime => spec_time_cell(spec_last_role_hit(event, m, ChannelType::Monitor)),
        ChannelDataField::X1 => spec_front_cell(spec_last_role_hit(event, m, ChannelType::DelayFrontLeft), spec_last_role_hit(event, m, ChannelType::DelayFrontRight)),
        ChannelDataField::X2 => spec_back_cell(spec_last_role_hit(event, m, ChannelType::DelayBackLeft), spec_last_role_hit(event, m, ChannelType::DelayBackRight)),
        ChannelDataField::Xavg => if has_weights { spec_focal_cell(spec_last_role_hit(event, m, ChannelType::DelayFrontLeft), spec_last_role_hit(event, m, ChannelType::DelayFrontRight), spec_last_role_hit(event, m, ChannelType::DelayBackLeft), spec_last_role_hit(event, m, ChannelType::DelayBackRight)) } else { CellValue::Unset },
        ChannelDataField::Theta => spec_focal_cell(spec_last_role_hit(event, m, ChannelType::DelayFrontLeft), spec_last_role_hit(event, m, ChannelType::DelayFrontRight), spec_last_role_hit(event, m, ChannelType::DelayBackLeft), spec_last_role_hit(event, m, ChannelType::DelayBackRight)),
        ChannelDataField::Cebra0Energy => spec_energy_cell(spec_last_role_hit(event, m, ChannelType::Cebra0)),
        ChannelDataField::Cebra1Energy => spec_energy_cell(spec_last_role_hit(event, m, ChannelType::Cebra1)),
        ChannelDataField::Cebra2Energy => spec_energy_cell(spec_last_role_hit(event, m, ChannelType::Cebra2)),
        ChannelDataField::Cebra3Energy => spec_energy_cell(spec_last_role_hit(event, m, ChannelType::Cebra3)),
        ChannelDataField::Cebra4Energy => spec_energy_cell(spec_last_role_hit(event, m, ChannelType::Cebra4)),
        ChannelDataField::Cebra5Energy => spec_energy_cell(spec_last_role_hit(event, m, ChannelType::Cebra5)),
        ChannelDataField::Cebra6Energy => spec_energy_cell(spec_last_role_hit(event, m, ChannelType::Cebra6)),
        ChannelDataField::Cebra7Energy => spec_energy_cell(spec_last_role_hit(event, m, ChannelType::Cebra7)),
        ChannelDataField::Cebra8Energy => spec_energy_cell(spec_last_role_hit(event, m, ChannelType::Cebra8)),
        ChannelDataField::Cebra0Short => spec_short_cell(spec_last_role_hit(event, m, ChannelType::Cebra0)),
        ChannelDataField::Cebra1Short => spec_short_cell(spec_last_role_hit(event, m, ChannelType::Cebra1)),
        ChannelDataField::Cebra2Short => spec_short_cell(spec_last_role_hit(event, m, ChannelType::Cebra2)),
        ChannelDataField::Cebra3Short => spec_short_cell(spec_last_role_hit(event, m, ChannelType::Cebra3)),
        ChannelDataField::Cebra4Short => spec_short_cell(spec_last_role_hit(event, m, ChannelType::Cebra4)),
        ChannelDataField::Cebra5Short => spec_short_cell(spec_last_role_hit(event, m, ChannelType::Cebra5)),
        ChannelDataField::Cebra6Short => spec_short_cell(spec_last_role_hit(event, m, ChannelType::Cebra6)),
        ChannelDataField::Cebra7Short => spec_short_cell(spec_last_role_hit(event, m, ChannelType::Cebra7)),
        ChannelDataField::Cebra8Short => spec_short_cell(spec_last_role_hit(event, m, ChannelType::Cebra8)),
        ChannelDataField::Cebra0Time => spec_time_cell(spec_last_role_hit(event, m, ChannelType::Cebra0)),
        ChannelDataField::Cebra1Time => spec_time_cell(spec_last_role_hit(event, m, ChannelType::Cebra1)),
        ChannelDataField::Cebra2Time => spec_time_cell(spec_last_role_hit(event, m, ChannelType::Cebra2)),
        ChannelDataField::Cebra3Time => spec_time_cell(spec_last_role_hit(event, m, ChannelType::Cebra3)),
        ChannelDataField::Cebra4Time => spec_time_cell(spec_last_role_hit(event, m, ChannelType::Cebra4)),
        ChannelDataField::Cebra5Time => spec_time_cell(spec_last_role_hit(event, m, ChannelType::Cebra5)),
        ChannelDataField::Cebra6Time => spec_time_cell(spec_last_role_hit(event, m, ChannelType::Cebra6)),
        ChannelDataField::Cebra7Time => spec_time_cell(spec_last_role_hit(event, m, ChannelType::Cebra7)),
        ChannelDataField::Cebra8Time => spec_time_cell(spec_last_role_hit(event, m, ChannelType::Cebra8)),
        ChannelDataField::Cebra0RelTime => spec_gated_delta_cell(spec_last_role_hit(event, m, ChannelType::Cebra0), spec_last_role_hit(event, m, ChannelType::ScintLeft), spec_last_role_hit(event, m, ChannelType::AnodeBack)),
        ChannelDataField::Cebra1RelTime => spec_gated_delta_cell(spec_last_role_hit(event, m, ChannelType::Cebra1), spec_last_role_hit(event, m, ChannelType::ScintLeft), spec_last_role_hit(event, m, ChannelType::AnodeBack)),
        ChannelDataField::Cebra2RelTime => spec_gated_delta_cell(spec_last_role_hit(event, m, ChannelType::Cebra2), spec_last_role_hit(event, m, ChannelType::ScintLeft), spec_last_role_hit(event, m, ChannelType::AnodeBack)),
        ChannelDataField::Cebra3RelTime => spec_gated_delta_cell(spec_last_role_hit(event, m, ChannelType::Cebra3), spec_last_role_hit(event, m, ChannelType::ScintLeft), spec_last_role_hit(event, m, ChannelType::AnodeBack)),
        ChannelDataField::Cebra4RelTime => spec_gated_delta_cell(spec_last_role_hit(event, m, ChannelType::Cebra4), spec_last_role_hit(event, m, ChannelType::ScintLeft), spec_last_role_hit(event, m, ChannelType::AnodeBack)),
        ChannelDataField::Cebra5RelTime => spec_gated_delta_cell(spec_last_role_hit(event, m, ChannelType::Cebra5), spec_last_role_hit(event, m, ChannelType::ScintLeft), spec_last_role_hit(event, m, ChannelType::AnodeBack)),
        ChannelDataField::Cebra6RelTime => spec_gated_delta_cell(spec_last_role_hit(event, m, ChannelType::Cebra6), spec_last_role_hit(event, m, ChannelType::ScintLeft), spec_last_role_hit(event, m, ChannelType::AnodeBack)),
        ChannelDataField::Cebra7RelTime => spec_gated_delta_cell(spec_last_role_hit(event, m, ChannelType::Cebra7), spec_last_role_hit(event, m, ChannelType::ScintLeft), spec_last_role_hit(event, m, ChannelType::AnodeBack)),
        ChannelDataField::Cebra8RelTime => spec_gated_delta_cell(spec_last_role_hit(event, m, ChannelType::Cebra8), spec_last_role_hit(event, m, ChannelType::ScintLeft), spec_last_role_hit(event, m, ChannelType::AnodeBack)),
        ChannelDataField::PIPS1000Energy => spec_energy_cell(spec_last_role_hit(event, m, ChannelType::PIPS1000)),
        ChannelDataField::PIPS500Energy => spec_energy_cell(spec_last_role_hit(event, m, ChannelType::PIPS500)),
        ChannelDataField::PIPS300Energy => spec_energy_cell(spec_last_role_hit(event, m, ChannelType::PIPS300)),
        ChannelDataField::PIPS100Energy => spec_energy_cell(spec_last_role_hit(event, m, ChannelType::PIPS100)),
        ChannelDataField::PIPS1000Time => spec_time_cell(spec_last_role_hit(event, m, ChannelType::PIPS1000)),
        ChannelDataField::PIPS500Time => spec_time_cell(spec_last_role_hit(event, m, ChannelType::PIPS500)),
        ChannelDataField::PIPS300Time => spec_time_cell(spec_last_role_hit(event, m, ChannelType::PIPS300)),
        ChannelDataField::PIPS100Time => spec_time_cell(spec_last_role_hit(event, m, ChannelType::PIPS100)),
        ChannelDataField::PIPS1000RelTime => spec_delta_cell(spec_last_role_hit(event, m, ChannelType::PIPS1000), spec_last_role_hit(event, m, ChannelType::ScintLeft)),
        ChannelDataField::PIPS500RelTime => spec_delta_cell(spec_last_role_hit(event, m, ChannelType::PIPS500), spec_last_role_hit(event, m, ChannelType::ScintLeft)),
        ChannelDataField::PIPS300RelTime => spec_delta_cell(spec_last_role_hit(event, m, ChannelType::PIPS300), spec_last_role_hit(event, m, ChannelType::ScintLeft)),
        ChannelDataField::PIPS100RelTime => spec_delta_cell(spec_last_role_hit(event, m, ChannelType::PIPS100), spec_last_role_hit(event, m, ChannelType::ScintLeft)),
        ChannelDataField::PIPS1000RelTimeToPIPS500 => spec_delta_cell(spec_last_role_hit(event, m, ChannelType::PIPS1000), spec_last_role_hit(event, m, ChannelType::PIPS500)),
        ChannelDataField::PIPS1000RelTimeToPIPS300 => spec_delta_cell(spec_last_role_hit(event, m, ChannelType::PIPS1000), spec_last_role_hit(event, m, ChannelType::PIPS300)),
        ChannelDataField::CATRINA0Energy => spec_energy_cell(spec_last_role_hit(event, m, ChannelType::CATRINA0)),
        ChannelDataField::CATRINA1Energy => spec_energy_cell(spec_last_role_hit(event, m, ChannelType::CATRINA1)),
        ChannelDataField::CATRINA2Energy => spec_energy_cell(spec_last_role_hit(event, m, ChannelType::CATRINA2)),
        ChannelDataField::CATRINA3Energy => spec_energy_cell(spec_last_role_hit(event, m, ChannelType::CATRINA3)),
        ChannelDataField::CATRINA4Energy => spec_energy_cell(spec_last_role_hit(event, m, ChannelType::CATRINA4)),
        ChannelDataField::CATRINA5Energy => spec_energy_cell(spec_last_role_hit(event, m, ChannelType::CATRINA5)),
        ChannelDataField::CATRINA6Energy => spec_energy_cell(spec_last_role_hit(event, m, ChannelType::CATRINA6)),
        ChannelDataField::CATRINA7Energy => spec_energy_cell(spec_last_role_hit(event, m, ChannelType::CATRINA7)),
        ChannelDataField::CATRINA8Energy => spec_energy_cell(spec_last_role_hit(event, m, ChannelType::CATRINA8)),
        ChannelDataField::CATRINA9Energy => spec_energy_cell(spec_last_role_hit(event, m, ChannelType::CATRINA9)),
        ChannelDataField::CATRINA10Energy => spec_energy_cell(spec_last_role_hit(event, m, ChannelType::CATRINA10)),
        ChannelDataField::CATRINA11Energy => spec_energy_cell(spec_last_role_hit(event, m, ChannelType::CATRINA11)),
        ChannelDataField::CATRINA12Energy => spec_energy_cell(spec_last_role_hit(event, m, ChannelType::CATRINA12)),
        ChannelDataField::CATRINA13Energy => spec_energy_cell(spec_last_role_hit(event, m, ChannelType::CATRINA13)),
        ChannelDataField::CATRINA14Energy => spec_energy_cell(spec_last_role_hit(event, m, ChannelType::CATRINA14)),
        ChannelDataField::CATRINA15Energy => spec_energy_cell(spec_last_role_hit(event, m, ChannelType::CATRINA15)),
        ChannelDataField::CATRINA0Short => spec_short_cell(spec_last_role_hit(event, m, ChannelType::CATRINA0)),
        ChannelDataField::CATRINA1Short => spec_short_cell(spec_last_role_hit(event, m, ChannelType::CATRINA1)),
        ChannelDataField::CATRINA2Short => spec_short_cell(spec_last_role_hit(event, m, ChannelType::CATRINA2)),
        ChannelDataField::CATRINA3Short => spec_short_cell(spec_last_role_hit(event, m, ChannelType::CATRINA3)),
        ChannelDataField::CATRINA4Short => spec_short_cell(spec_last_role_hit(event, m, ChannelType::CATRINA4)),
        ChannelDataField::CATRINA5Short => spec_short_cell(spec_last_role_hit(event, m, ChannelType::CATRINA5)),
        ChannelDataField::CATRINA6Short => spec_short_cell(spec_last_role_hit(event, m, ChannelType::CATRINA6)),
        ChannelDataField::CATRINA7Short => spec_short_cell(spec_last_role_hit(event, m, ChannelType::CATRINA7)),
        ChannelDataField::CATRINA8Short => spec_short_cell(spec_last_role_hit(event, m, ChannelType::CATRINA8)),
        ChannelDataField::CATRINA9Short => spec_short_cell(spec_last_role_hit(event, m, ChannelType::CATRINA9)),
        ChannelDataField::CATRINA10Short => spec_short_cell(spec_last_role_hit(event, m, ChannelType::CATRINA10)),
        ChannelDataField::CATRINA11Short => spec_short_cell(spec_last_role_hit(event, m, ChannelType::CATRINA11)),
        ChannelDataField::CATRINA12Short => spec_short_cell(spec_last_role_hit(event, m, ChannelType::CATRINA12)),
        ChannelDataField::CATRINA13Short => spec_short_cell(spec_last_role_hit(event, m, ChannelType::CATRINA13)),
        ChannelDataField::CATRINA14Short => spec_short_cell(spec_last_role_hit(event, m, ChannelType::CATRINA14)),
        ChannelDataField::CATRINA15Short => spec_short_cell(spec_last_role_hit(event, m, ChannelType::CATRINA15)),
        ChannelDataField::CATRINA0Time => spec_time_cell(spec_last_role_hit(event, m, ChannelType::CATRINA0)),
        ChannelDataField::CATRINA1Time => spec_time_cell(spec_last_role_hit(event, m, ChannelType::CATRINA1)),
        ChannelDataField::CATRINA2Time => spec_time_cell(spec_last_role_hit(event, m, ChannelType::CATRINA2)),
        ChannelDataField::CATRINA3Time => spec_time_cell(spec_last_role_hit(event, m, ChannelType::CATRINA3)),
        ChannelDataField::CATRINA4Time => spec_time_cell(spec_last_role_hit(event, m, ChannelType::CATRINA4)),
        ChannelDataField::CATRINA5Time => spec_time_cell(spec_last_role_hit(event, m, ChannelType::CATRINA5)),
        ChannelDataField::CATRINA6Time => spec_time_cell(spec_last_role_hit(event, m, ChannelType::CATRINA6)),
        ChannelDataField::CATRINA7Time => spec_time_cell(spec_last_role_hit(event, m, ChannelType::CATRINA7)),
        ChannelDataField::CATRINA8Time => spec_time_cell(spec_last_role_hit(event, m, ChannelType::CATRINA8)),
        ChannelDataField::CATRINA9Time => spec_time_cell(spec_last_role_hit(event, m, ChannelType::CATRINA9)),
        ChannelDataField::CATRINA10Time => spec_time_cell(spec_last_role_hit(event, m, ChannelType::CATRINA10)),
        ChannelDataField::CATRINA11Time => spec_time_cell(spec_last_role_hit(event, m, ChannelType::CATRINA11)),
        ChannelDataField::CATRINA12Time => spec_time_cell(spec_last_role_hit(event, m, ChannelType::CATRINA12)),
        ChannelDataField::CATRINA13Time => spec_time_cell(spec_last_role_hit(event, m, ChannelType::CATRINA13)),
        ChannelDataField::CATRINA14Time => spec_time_cell(spec_last_role_hit(event, m, ChannelType::CATRINA14)),
        ChannelDataField::CATRINA15Time => spec_time_cell(spec_last_role_hit(event, m, ChannelType::CATRINA15)),
        ChannelDataField::CATRINA0PSD => spec_psd_cell(spec_last_role_hit(event, m, ChannelType::CATRINA0)),
        ChannelDataField::CATRINA1PSD => spec_psd_cell(spec_last_role_hit(event, m, ChannelType::CATRINA1)),
        ChannelDataField::CATRINA2PSD => spec_psd_cell(spec_last_role_hit(event, m, ChannelType::CATRINA2)),
        ChannelDataField::CATRINA3PSD => spec_psd_cell(spec_last_role_hit(event, m, ChannelType::CATRINA3)),
        ChannelDataField::CATRINA4PSD => spec_psd_cell(spec_last_role_hit(event, m, ChannelType::CATRINA4)),
        ChannelDataField::CATRINA5PSD => spec_psd_cell(spec_last_role_hit(event, m, ChannelType::CATRINA5)),
        ChannelDataField::CATRINA6PSD => spec_psd_cell(spec_last_role_hit(event, m, ChannelType::CATRINA6)),
        ChannelDataField::CATRINA7PSD => spec_psd_cell(spec_last_role_hit(event, m, ChannelType::CATRINA7)),
        ChannelDataField::CATRINA8PSD => spec_psd_cell(spec_last_role_hit(event, m, ChannelType::CATRINA8)),
        ChannelDataField::CATRINA9PSD => spec_psd_cell(spec_last_role_hit(event, m, ChannelType::CATRINA9)),
        ChannelDataField::CATRINA10PSD => spec_psd_cell(spec_last_role_hit(event, m, ChannelType::CATRINA10)),
        ChannelDataField::CATRINA11PSD => spec_psd_cell(spec_last_role_hit(event, m, ChannelType::CATRINA11)),
        ChannelDataField::CATRINA12PSD => spec_psd_cell(spec_last_role_hit(event, m, ChannelType::CATRINA12)),
        ChannelDataField::CATRINA13PSD => spec_psd_cell(spec_last_role_hit(event, m, ChannelType::CATRINA13)),
        ChannelDataField::CATRINA14PSD => spec_psd_cell(spec_last_role_hit(event, m, ChannelType::CATRINA14)),
        ChannelDataField::CATRINA15PSD => spec_psd_cell(spec_last_role_hit(event, m, ChannelType::CATRINA15)),
        ChannelDataField::LeftStrip0Energy => spec_energy_cell(spec_last_role_hit(event, m, ChannelType::LeftStrip0)),
        ChannelDataField::LeftStrip1Energy => spec_energy_cell(spec_last_role_hit(event, m, ChannelType::LeftStrip1)),
        ChannelDataField::LeftStrip2Energy => spec_energy_cell(spec_last_role_hit(event, m, ChannelType::LeftStrip2)),
        ChannelDataField::LeftStrip3Energy => spec_energy_cell(spec_last_role_hit(event, m, ChannelType::LeftStrip3)),
        ChannelDataField::LeftStrip4Energy => spec_energy_cell(spec_last_role_hit(event, m, ChannelType::LeftStrip4)),
        ChannelDataField::LeftStrip5Energy => spec_energy_cell(spec_last_role_hit(event, m, ChannelType::LeftStrip5)),
        ChannelDataField::LeftStrip6Energy => spec_energy_cell(spec_last_role_hit(event, m, ChannelType::LeftStrip6)),
        ChannelDataField::LeftStrip7Energy => spec_energy_cell(spec_last_role_hit(event, m, ChannelType::LeftStrip7)),
        ChannelDataField::LeftStrip8Energy => spec_energy_cell(spec_last_role_hit(event, m, ChannelType::LeftStrip8)),
        ChannelDataField::LeftStrip9Energy => spec_energy_cell(spec_last_role_hit(event, m, ChannelType::LeftStrip9)),
        ChannelDataField::LeftStrip10Energy => spec_energy_cell(spec_last_role_hit(event, m, ChannelType::LeftStrip10)),
        ChannelDataField::LeftStrip11Energy => spec_energy_cell(spec_last_role_hit(event, m, ChannelType::LeftStrip11)),
        ChannelDataField::LeftStrip12Energy => spec_energy_cell(spec_last_role_hit(event, m, ChannelType::LeftStrip12)),
        ChannelDataField::LeftStrip13Energy => spec_energy_cell(spec_last_role_hit(event, m, ChannelType::LeftStrip13)),
        ChannelDataField::LeftStrip14Energy => spec_energy_cell(spec_last_role_hit(event, m, ChannelType::LeftStrip14)),
        ChannelDataField::LeftStrip15Energy => spec_energy_cell(spec_last_role_hit(event, m, ChannelType::LeftStrip15)),
        ChannelDataField::LeftStrip0Time => spec_time_cell(spec_last_role_hit(event, m, ChannelType::LeftStrip0)),
        ChannelDataField::LeftStrip1Time => spec_time_cell(spec_last_role_hit(event, m, ChannelType::LeftStrip1)),
        ChannelDataField::LeftStrip2Time => spec_time_cell(spec_last_role_hit(event, m, ChannelType::LeftStrip2)),
        ChannelDataField::LeftStrip3Time => spec_time_cell(spec_last_role_hit(event, m, ChannelType::LeftStrip3)),
        ChannelDataField::LeftStrip4Time => spec_time_cell(spec_last_role_hit(event, m, ChannelType::LeftStrip4)),
        ChannelDataField::LeftStrip5Time => spec_time_cell(spec_last_role_hit(event, m, ChannelType::LeftStrip5)),
        ChannelDataField::LeftStrip6Time => spec_time_cell(spec_last_role_hit(event, m, ChannelType::LeftStrip6)),
        ChannelDataField::LeftStrip7Time => spec_time_cell(spec_last_role_hit(event, m, ChannelType::LeftStrip7)),
        ChannelDataField::LeftStrip8Time => spec_time_cell(spec_last_role_hit(event, m, ChannelType::LeftStrip8)),
        ChannelDataField::LeftStrip9Time => spec_time_cell(spec_last_role_hit(event, m, ChannelType::LeftStrip9)),
        ChannelDataField::LeftStrip10Time => spec_time_cell(spec_last_role_hit(event, m, ChannelType::LeftStrip10)),
        ChannelDataField::LeftStrip11Time => spec_time_cell(spec_last_role_hit(event, m, ChannelType::LeftStrip11)),
        ChannelDataField::LeftStrip12Time => spec_time_cell(spec_last_role_hit(event, m, ChannelType::LeftStrip12)),
        ChannelDataField::LeftStrip13Time => spec_time_cell(spec_last_role_hit(event, m, ChannelType::LeftStrip13)),
        ChannelDataField::LeftStrip14Time => spec_time_cell(spec_last_role_hit(event, m, ChannelType::LeftStrip14)),
        ChannelDataField::LeftStrip15Time => spec_time_cell(spec_last_role_hit(event, m, ChannelType::LeftStrip15)),
        ChannelDataField::RightStrip0Energy => spec_energy_cell(spec_last_role_hit(event, m, ChannelType::RightStrip0)),
        ChannelDataField::RightStrip1Energy => spec_energy_cell(spec_last_role_hit(event, m, ChannelType::RightStrip1)),
        ChannelDataField::RightStrip2Energy => spec_energy_cell(spec_last_role_hit(event, m, ChannelType::RightStrip2)),
        ChannelDataField::RightStrip3Energy => spec_energy_cell(spec_last_role_hit(event, m, ChannelType::RightStrip3)),
        ChannelDataField::RightStrip4Energy => spec_energy_cell(spec_last_role_hit(event, m, ChannelType::RightStrip4)),
        ChannelDataField::RightStrip5Energy => spec_energy_cell(spec_last_role_hit(event, m, ChannelType::RightStrip5)),
        ChannelDataField::RightStrip6Energy => spec_energy_cell(spec_last_role_hit(event, m, ChannelType::RightStrip6)),
        ChannelDataField::RightStrip7Energy => spec_energy_cell(spec_last_role_hit(event, m, ChannelType::RightStrip7)),
        ChannelDataField::RightStrip8Energy => spec_energy_cell(spec_last_role_hit(event, m, ChannelType::RightStrip8)),
        ChannelDataField::RightStrip9Energy => spec_energy_cell(spec_last_role_hit(event, m, ChannelType::RightStrip9)),
        ChannelDataField::RightStrip10Energy => spec_energy_cell(spec_last_role_hit(event, m, ChannelType::RightStrip10)),
        ChannelDataField::RightStrip11Energy => spec_energy_cell(spec_last_role_hit(event, m, ChannelType::RightStrip11)),
        ChannelDataField::RightStrip12Energy => spec_energy_cell(spec_last_role_hit(event, m, ChannelType::RightStrip12)),
        ChannelDataField::RightStrip13Energy => spec_energy_cell(spec_last_role_hit(event, m, ChannelType::RightStrip13)),
        ChannelDataField::RightStrip14Energy => spec_energy_cell(spec_last_role_hit(event, m, ChannelType::RightStrip14)),
        ChannelDataField::RightStrip15Energy => spec_energy_cell(spec_last_role_hit(event, m, ChannelType::RightStrip15)),
        ChannelDataField::RightStrip0Time => spec_time_cell(spec_last_role_hit(event, m, ChannelType::RightStrip0)),
        ChannelDataField::RightStrip1Time => spec_time_cell(spec_last_role_hit(event, m, ChannelType::RightStrip1)),
        ChannelDataField::RightStrip2Time => spec_time_cell(spec_last_role_hit(event, m, ChannelType::RightStrip2)),
        ChannelDataField::RightStrip3Time => spec_time_cell(spec_last_role_hit(event, m, ChannelType::RightStrip3)),
        ChannelDataField::RightStrip4Time => spec_time_cell(spec_last_role_hit(event, m, ChannelType::RightStrip4)),
        ChannelDataField::RightStrip5Time => spec_time_cell(spec_last_role_hit(event, m, ChannelType::RightStrip5)),
        ChannelDataField::RightStrip6Time => spec_time_cell(spec_last_role_hit(event, m, ChannelType::RightStrip6)),
        ChannelDataField::RightStrip7Time => spec_time_cell(spec_last_role_hit(event, m, ChannelType::RightStrip7)),
        ChannelDataField::RightStrip8Time => spec_time_cell(spec_last_role_hit(event, m, ChannelType::RightStrip8)),
        ChannelDataField::RightStrip9Time => spec_time_cell(spec_last_role_hit(event, m, ChannelType::RightStrip9)),
        ChannelDataField::RightStrip10Time => spec_time_cell(spec_last_role_hit(event, m, ChannelType::RightStrip10)),
        ChannelDataField::RightStrip11Time => spec_time_cell(spec_last_role_hit(event, m, ChannelType::RightStrip11)),
        ChannelDataField::RightStrip12Time => spec_time_cell(spec_last_role_hit(event, m, ChannelType::RightStrip12)),
        ChannelDataField::RightStrip13Time => spec_time_cell(spec_last_role_hit(event, m, ChannelType::RightStrip13)),
        ChannelDataField::RightStrip14Time => spec_time_cell(spec_last_role_hit(event, m, ChannelType::RightStrip14)),
        ChannelDataField::RightStrip15Time => spec_time_cell(spec_last_role_hit(event, m, ChannelType::RightStrip15)),
        ChannelDataField::Strip0Energy => spec_energy_cell(spec_last_role_hit(event, m, ChannelType::Strip0)),
        ChannelDataField::Strip17Energy => spec_energy_cell(spec_last_role_hit(event, m, ChannelType::Strip17)),
        ChannelDataField::Strip0Time => spec_time_cell(spec_last_role_hit(event, m, ChannelType::Strip0)),
        ChannelDataField::Strip17Time => spec_time_cell(spec_last_role_hit(event, m, ChannelType::Strip17)),
        ChannelDataField::RF => spec_time_cell(spec_last_role_hit(event, m, ChannelType::RF)),
    }
}

/// Whether the channel map declares column `f` (the filtered schema).
pub open spec fn spec_field_included(f: ChannelDataField, m: Seq<(u32, RoleData)>) -> bool {
    match f {
        ChannelDataField::AnodeFrontEnergy => spec_contains_role(m, ChannelType::AnodeFront),
        ChannelDataField::AnodeFrontShort => spec_contains_role(m, ChannelType::AnodeFront),
        ChannelDataField::AnodeFrontTime => spec_contains_role(m, ChannelType::AnodeFront),
        ChannelDataField::AnodeBackEnergy => spec_contains_role(m, ChannelType::AnodeBack),
        ChannelDataField::AnodeBackShort => spec_contains_role(m, ChannelType::AnodeBack),
        ChannelDataField::AnodeBackTime => spec_contains_role(m, ChannelType::AnodeBack),
        ChannelDataField::ScintLeftEnergy => spec_contains_role(m, ChannelType::ScintLeft),
        ChannelDataField::ScintLeftShort => spec_contains_role(m, ChannelType::ScintLeft),
        ChannelDataField::ScintLeftTime => spec_contains_role(m, ChannelType::ScintLeft),
        ChannelDataField::ScintRightEnergy => spec_contains_role(m, ChannelType::ScintRight),
        ChannelDataField::ScintRightShort => spec_contains_role(m, ChannelType::ScintRight),
        ChannelDataField::ScintRightTime => spec_contains_role(m, ChannelType::ScintRight),
        ChannelDataField::CathodeEnergy => spec_contains_role(m, ChannelType::Cathode),
        ChannelDataField::CathodeShort => spec_contains_role(m, ChannelType::Cathode),
        ChannelDataField::CathodeTime => spec_contains_role(m, ChannelType::Cathode),
        ChannelDataField::DelayFrontLeftEnergy => spec_contains_role(m, ChannelType::DelayFrontLeft),
        ChannelDataField::DelayFrontLeftShort => spec_contains_role(m, ChannelType::DelayFrontLeft),
        ChannelDataField::DelayFrontLeftTime => spec_contains_role(m, ChannelType::DelayFrontLeft),
        ChannelDataField::DelayFrontRightEnergy => spec_contains_role(m, ChannelType::DelayFrontRight),
        ChannelDataField::DelayFrontRightShort => spec_contains_role(m, ChannelType::DelayFrontRight),
        ChannelDataField::DelayFrontRightTime => spec_contains_role(m, ChannelType::DelayFrontRight),
        ChannelDataField::DelayBackLeftEnergy => spec_contains_role(m, ChannelType::DelayBackLeft),
        ChannelDataField::DelayBackLeftShort => spec_contains_role(m, ChannelType::DelayBackLeft),
        ChannelDataField::DelayBackLeftTime => spec_contains_role(m, ChannelType::DelayBackLeft),
        ChannelDataField::DelayBackRightEnergy => spec_contains_role(m, ChannelType::DelayBackRight),
        ChannelDataField::DelayBackRightShort => spec_contains_role(m, ChannelType::DelayBackRight),
        ChannelDataField::DelayBackRightTime => spec_contains_role(m, ChannelType::DelayBackRight),
        ChannelDataField::MonitorEnergy => spec_contains_role(m, ChannelType::Monitor),
        ChannelDataField::MonitorShort => spec_contains_role(m, ChannelType::Monitor),
        ChannelDataField::MonitorTime => spec_contains_role(m, ChannelType::Monitor),
        ChannelDataField::X1 => spec_contains_role(m, ChannelType::DelayFrontLeft) && spec_contains_role(m, ChannelType::DelayFrontRight) && spec_contains_role(m, ChannelType::DelayBackLeft) && spec_contains_role(m, ChannelType::DelayBackRight),
        ChannelDataField::X2 => spec_contains_role(m, ChannelType::DelayFrontLeft) && spec_contains_role(m, ChannelType::DelayFrontRight) && spec_contains_role(m, ChannelType::DelayBackLeft) && spec_contains_role(m, ChannelType::DelayBackRight),
        ChannelDataField::Xavg => spec_contains_role(m, ChannelType::DelayFrontLeft) && spec_contains_role(m, ChannelType::DelayFrontRight) && spec_contains_role(m, ChannelType::DelayBackLeft) && spec_contains_role(m, ChannelType::DelayBackRight),
        ChannelDataField::Theta => spec_contains_role(m, ChannelType::DelayFrontLeft) && spec_contains_role(m, ChannelType::DelayFrontRight) && spec_contains_role(m, ChannelType::DelayBackLeft) && spec_contains_role(m, ChannelType::DelayBackRight),
        ChannelDataField::Cebra0Energy => spec_contains_role(m, ChannelType::Cebra0),
        ChannelDataField::Cebra1Energy => spec_contains_role(m, ChannelType::Cebra1),
        ChannelDataField::Cebra2Energy => spec_contains_role(m, ChannelType::Cebra2),
        ChannelDataField::Cebra3Energy => spec_contains_role(m, ChannelType::Cebra3),
        ChannelDataField::Cebra4Energy => spec_contains_role(m, ChannelType::Cebra4),
        ChannelDataField::Cebra5Energy => spec_contains_role(m, ChannelType::Cebra5),
        ChannelDataField::Cebra6Energy => spec_contains_role(m, ChannelType::Cebra6),
        ChannelDataField::Cebra7Energy => spec_contains_role(m, ChannelType::Cebra7),
        ChannelDataField::Cebra8Energy => spec_contains_role(m, ChannelType::Cebra8),
        ChannelDataField::Cebra0Short => spec_contains_role(m, ChannelType::Cebra0),
        ChannelDataField::Cebra1Short => spec_contains_role(m, ChannelType::Cebra1),
        ChannelDataField::Cebra2Short => spec_contains_role(m, ChannelType::Cebra2),
        ChannelDataField::Cebra3Short => spec_contains_role(m, ChannelType::Cebra3),
        ChannelDataField::Cebra4Short => spec_contains_role(m, ChannelType::Cebra4),
        ChannelDataField::Cebra5Short => spec_contains_role(m, ChannelType::Cebra5),
        ChannelDataField::Cebra6Short => spec_contains_role(m, ChannelType::Cebra6),
        ChannelDataField::Cebra7Short => spec_contains_role(m, ChannelType::Cebra7),
        ChannelDataField::Cebra8Short => spec_contains_role(m, ChannelType::Cebra8),
        ChannelDataField::Cebra0Time => spec_contains_role(m, ChannelType::Cebra0),
        ChannelDataField::Cebra1Time => spec_contains_role(m, ChannelType::Cebra1),
        ChannelDataField::Cebra2Time => spec_contains_role(m, ChannelType::Cebra2),
        ChannelDataField::Cebra3Time => spec_contains_role(m, ChannelType::Cebra3),
        ChannelDataField::Cebra4Time => spec_contains_role(m, ChannelType::Cebra4),
        ChannelDataField::Cebra5Time => spec_contains_role(m, ChannelType::Cebra5),
        ChannelDataField::Cebra6Time => spec_contains_role(m, ChannelType::Cebra6),
        ChannelDataField::Cebra7Time => spec_contains_role(m, ChannelType::Cebra7),
        ChannelDataField::Cebra8Time => spec_contains_role(m, ChannelType::Cebra8),
        ChannelDataField::Cebra0RelTime => spec_contains_role(m, ChannelType::Cebra0) && spec_contains_role(m, ChannelType::ScintLeft),
        ChannelDataField::Cebra1RelTime => spec_contains_role(m, ChannelType::Cebra1) && spec_contains_role(m, ChannelType::ScintLeft),
        ChannelDataField::Cebra2RelTime => spec_contains_role(m, ChannelType::Cebra2) && spec_contains_role(m, ChannelType::ScintLeft),
        ChannelDataField::Cebra3RelTime => spec_contains_role(m, ChannelType::Cebra3) && spec_contains_role(m, ChannelType::ScintLeft),
        ChannelDataField::Cebra4RelTime => spec_contains_role(m, ChannelType::Cebra4) && spec_contains_role(m, ChannelType::ScintLeft),
        ChannelDataField::Cebra5RelTime => spec_contains_role(m, ChannelType::Cebra5) && spec_contains_role(m, ChannelType::ScintLeft),
        ChannelDataField::Cebra6RelTime => spec_contains_role(m, ChannelType::Cebra6) && spec_contains_role(m, ChannelType::ScintLeft),
        ChannelDataField::Cebra7RelTime => spec_contains_role(m, ChannelType::Cebra7) && spec_contains_role(m, ChannelType::ScintLeft),
        ChannelDataField::Cebra8RelTime => spec_contains_role(m, ChannelType::Cebra8) && spec_contains_role(m, ChannelType::ScintLeft),
        ChannelDataField::PIPS1000Energy => spec_contains_role(m, ChannelType::PIPS1000),
        ChannelDataField::PIPS500Energy => spec_contains_role(m, ChannelType::PIPS500),
        ChannelDataField::PIPS300Energy => spec_contains_role(m, ChannelType::PIPS300),
        ChannelDataField::PIPS100Energy => spec_contains_role(m, ChannelType::PIPS100),
        ChannelDataField::PIPS1000Time => spec_contains_role(m, ChannelType::PIPS1000),
        ChannelDataField::PIPS500Time => spec_contains_role(m, ChannelType::PIPS500),
        ChannelDataField::PIPS300Time => spec_contains_role(m, ChannelType::PIPS300),
        ChannelDataField::PIPS100Time => spec_contains_role(m, ChannelType::PIPS100),
        ChannelDataField::PIPS1000RelTime => spec_contains_role(m, ChannelType::PIPS1000) && spec_contains_role(m, ChannelType::ScintLeft),
        ChannelDataField::PIPS500RelTime => spec_contains_role(m, ChannelType::PIPS500) && spec_contains_role(m, ChannelType::ScintLeft),
        ChannelDataField::PIPS300RelTime => spec_contains_role(m, ChannelType::PIPS300) && spec_contains_role(m, ChannelType::ScintLeft),
        ChannelDataField::PIPS100RelTime => spec_contains_role(m, ChannelType::PIPS100) && spec_contains_role(m, ChannelType::ScintLeft),
        ChannelDataField::PIPS1000RelTimeToPIPS500 => spec_contains_role(m, ChannelType::PIPS1000) && spec_contains_role(m, ChannelType::PIPS500),
        ChannelDataField::PIPS1000RelTimeToPIPS300 => spec_contains_role(m, ChannelType::PIPS1000) && spec_contains_role(m, ChannelType::PIPS300),
        ChannelDataField::CATRINA0Energy => spec_contains_role(m, ChannelType::CATRINA0),
        ChannelDataField::CATRINA1Energy => spec_contains_role(m, ChannelType::CATRINA1),
        ChannelDataField::CATRINA2Energy => spec_contains_role(m, ChannelType::CATRINA2),
        ChannelDataField::CATRINA3Energy => spec_contains_role(m, ChannelType::CATRINA3),
        ChannelDataField::CATRINA4Energy => spec_contains_role(m, ChannelType::CATRINA4),
        ChannelDataField::CATRINA5Energy => spec_contains_role(m, ChannelType::CATRINA5),
        ChannelDataField::CATRINA6Energy => spec_contains_role(m, ChannelType::CATRINA6),
        ChannelDataField::CATRINA7Energy => spec_contains_role(m, ChannelType::CATRINA7),
        ChannelDataField::CATRINA8Energy => spec_contains_role(m, ChannelType::CATRINA8),
        ChannelDataField::CATRINA9Energy => spec_contains_role(m, ChannelType::CATRINA9),
        ChannelDataField::CATRINA10Energy => spec_contains_role(m, ChannelType::CATRINA10),
        ChannelDataField::CATRINA11Energy => spec_contains_role(m, ChannelType::CATRINA11),
        ChannelDataField::CATRINA12Energy => spec_contains_role(m, ChannelType::CATRINA12),
        ChannelDataField::CATRINA13Energy => spec_contains_role(m, ChannelType::CATRINA13),
        ChannelDataField::CATRINA14Energy => spec_contains_role(m, ChannelType::CATRINA14),
        ChannelDataField::CATRINA15Energy => spec_contains_role(m, ChannelType::CATRINA15),
        ChannelDataField::CATRINA0Short => spec_contains_role(m, ChannelType::CATRINA0),
        ChannelDataField::CATRINA1Short => spec_contains_role(m, ChannelType::CATRINA1),
        ChannelDataField::CATRINA2Short => spec_contains_role(m, ChannelType::CATRINA2),
        ChannelDataField::CATRINA3Short => spec_contains_role(m, ChannelType::CATRINA3),
        ChannelDataField::CATRINA4Short => spec_contains_role(m, ChannelType::CATRINA4),
        ChannelDataField::CATRINA5Short => spec_contains_role(m, ChannelType::CATRINA5),
        ChannelDataField::CATRINA6Short => spec_contains_role(m, ChannelType::CATRINA6),
        ChannelDataField::CATRINA7Short => spec_contains_role(m, ChannelType::CATRINA7),
        ChannelDataField::CATRINA8Short => spec_contains_role(m, ChannelType::CATRINA8),
        ChannelDataField::CATRINA9Short => spec_contains_role(m, ChannelType::CATRINA9),
        ChannelDataField::CATRINA10Short => spec_contains_role(m, ChannelType::CATRINA10),
        ChannelDataField::CATRINA11Short => spec_contains_role(m, ChannelType::CATRINA11),
        ChannelDataField::CATRINA12Short => spec_contains_role(m, ChannelType::CATRINA12),
        ChannelDataField::CATRINA13Short => spec_contains_role(m, ChannelType::CATRINA13),
        ChannelDataField::CATRINA14Short => spec_contains_role(m, ChannelType::CATRINA14),
        ChannelDataField::CATRINA15Short => spec_contains_role(m, ChannelType::CATRINA15),
        ChannelDataField::CATRINA0Time => spec_contains_role(m, ChannelType::CATRINA0),
        ChannelDataField::CATRINA1Time => spec_contains_role(m, ChannelType::CATRINA1),
        ChannelDataField::CATRINA2Time => spec_contains_role(m, ChannelType::CATRINA2),
        ChannelDataField::CATRINA3Time => spec_contains_role(m, ChannelType::CATRINA3),
        ChannelDataField::CATRINA4Time => spec_contains_role(m, ChannelType::CATRINA4),
        ChannelDataField::CATRINA5Time => spec_contains_role(m, ChannelType::CATRINA5),
        ChannelDataField::CATRINA6Time => spec_contains_role(m, ChannelType::CATRINA6),
        ChannelDataField::CATRINA7Time => spec_contains_role(m, ChannelType::CATRINA7),
        ChannelDataField::CATRINA8Time => spec_contains_role(m, ChannelType::CATRINA8),
        ChannelDataField::CATRINA9Time => spec_contains_role(m, ChannelType::CATRINA9),
        ChannelDataField::CATRINA10Time => spec_contains_role(m, ChannelType::CATRINA10),
        ChannelDataField::CATRINA11Time => spec_contains_role(m, ChannelType::CATRINA11),
        ChannelDataField::CATRINA12Time => spec_contains_role(m, ChannelType::CATRINA12),
        ChannelDataField::CATRINA13Time => spec_contains_role(m, ChannelType::CATRINA13),
        ChannelDataField::CATRINA14Time => spec_contains_role(m, ChannelType::CATRINA14),
        ChannelDataField::CATRINA15Time => spec_contains_role(m, ChannelType::CATRINA15),
        ChannelDataField::CATRINA0PSD => spec_contains_role(m, ChannelType::CATRINA0),
        ChannelDataField::CATRINA1PSD => spec_contains_role(m, ChannelType::CATRINA1),
        ChannelDataField::CATRINA2PSD => spec_contains_role(m, ChannelType::CATRINA2),
        ChannelDataField::CATRINA3PSD => spec_contains_role(m, ChannelType::CATRINA3),
        ChannelDataField::CATRINA4PSD => spec_contains_role(m, ChannelType::CATRINA4),
        ChannelDataField::CATRINA5PSD => spec_contains_role(m, ChannelType::CATRINA5),
        ChannelDataField::CATRINA6PSD => spec_contains_role(m, ChannelType::CATRINA6),
        ChannelDataField::CATRINA7PSD => spec_contains_role(m, ChannelType::CATRINA7),
        ChannelDataField::CATRINA8PSD => spec_contains_role(m, ChannelType::CATRINA8),
        ChannelDataField::CATRINA9PSD => spec_contains_role(m, ChannelType::CATRINA9),
        ChannelDataField::CATRINA10PSD => spec_contains_role(m, ChannelType::CATRINA10),
        ChannelDataField::CATRINA11PSD => spec_contains_role(m, ChannelType::CATRINA11),
        ChannelDataField::CATRINA12PSD => spec_contains_role(m, ChannelType::CATRINA12),
        ChannelDataField::CATRINA13PSD => spec_contains_role(m, ChannelType::CATRINA13),
        ChannelDataField::CATRINA14PSD => spec_contains_role(m, ChannelType::CATRINA14),
        ChannelDataField::CATRINA15PSD => spec_contains_role(m, ChannelType::CATRINA15),
        ChannelDataField::LeftStrip0Energy => spec_contains_role(m, ChannelType::LeftStrip0),
        ChannelDataField::LeftStrip1Energy => spec_contains_role(m, ChannelType::LeftStrip1),
        ChannelDataField::LeftStrip2Energy => spec_contains_role(m, ChannelType::LeftStrip2),
        ChannelDataField::LeftStrip3Energy => spec_contains_role(m, ChannelType::LeftStrip3),
        ChannelDataField::LeftStrip4Energy => spec_contains_role(m, ChannelType::LeftStrip4),
        ChannelDataField::LeftStrip5Energy => spec_contains_role(m, ChannelType::LeftStrip5),
        ChannelDataField::LeftStrip6Energy => spec_contains_role(m, ChannelType::LeftStrip6),
        ChannelDataField::LeftStrip7Energy => spec_contains_role(m, ChannelType::LeftStrip7),
        ChannelDataField::LeftStrip8Energy => spec_contains_role(m, ChannelType::LeftStrip8),
        ChannelDataField::LeftStrip9Energy => spec_contains_role(m, ChannelType::LeftStrip9),
        ChannelDataField::LeftStrip10Energy => spec_contains_role(m, ChannelType::LeftStrip10),
        ChannelDataField::LeftStrip11Energy => spec_contains_role(m, ChannelType::LeftStrip11),
        ChannelDataField::LeftStrip12Energy => spec_contains_role(m, ChannelType::LeftStrip12),
        ChannelDataField::LeftStrip13Energy => spec_contains_role(m, ChannelType::LeftStrip13),
        ChannelDataField::LeftStrip14Energy => spec_contains_role(m, ChannelType::LeftStrip14),
        ChannelDataField::LeftStrip15Energy => spec_contains_role(m, ChannelType::LeftStrip15),
        ChannelDataField::LeftStrip0Time => spec_contains_role(m, ChannelType::LeftStrip0),
        ChannelDataField::LeftStrip1Time => spec_contains_role(m, ChannelType::LeftStrip1),
        ChannelDataField::LeftStrip2Time => spec_contains_role(m, ChannelType::LeftStrip2),
        ChannelDataField::LeftStrip3Time => spec_contains_role(m, ChannelType::LeftStrip3),
        ChannelDataField::LeftStrip4Time => spec_contains_role(m, ChannelType::LeftStrip4),
        ChannelDataField::LeftStrip5Time => spec_contains_role(m, ChannelType::LeftStrip5),
        ChannelDataField::LeftStrip6Time => spec_contains_role(m, ChannelType::LeftStrip6),
        ChannelDataField::LeftStrip7Time => spec_contains_role(m, ChannelType::LeftStrip7),
        ChannelDataField::LeftStrip8Time => spec_contains_role(m, ChannelType::LeftStrip8),
        ChannelDataField::LeftStrip9Time => spec_contains_role(m, ChannelType::LeftStrip9),
        ChannelDataField::LeftStrip10Time => spec_contains_role(m, ChannelType::LeftStrip10),
        ChannelDataField::LeftStrip11Time => spec_contains_role(m, ChannelType::LeftStrip11),
        ChannelDataField::LeftStrip12Time => spec_contains_role(m, ChannelType::LeftStrip12),
        ChannelDataField::LeftStrip13Time => spec_contains_role(m, ChannelType::LeftStrip13),
        ChannelDataField::LeftStrip14Time => spec_contains_role(m, ChannelType::LeftStrip14),
        ChannelDataField::LeftStrip15Time => spec_contains_role(m, ChannelType::LeftStrip15),
        ChannelDataField::RightStrip0Energy => spec_contains_role(m, ChannelType::RightStrip0),
        ChannelDataField::RightStrip1Energy => spec_contains_role(m, ChannelType::RightStrip1),
        ChannelDataField::RightStrip2Energy => spec_contains_role(m, ChannelType::RightStrip2),
        ChannelDataField::RightStrip3Energy => spec_contains_role(m, ChannelType::RightStrip3),
        ChannelDataField::RightStrip4Energy => spec_contains_role(m, ChannelType::RightStrip4),
        ChannelDataField::RightStrip5Energy => spec_contains_role(m, ChannelType::RightStrip5),
        ChannelDataField::RightStrip6Energy => spec_contains_role(m, ChannelType::RightStrip6),
        ChannelDataField::RightStrip7Energy => spec_contains_role(m, ChannelType::RightStrip7),
        ChannelDataField::RightStrip8Energy => spec_contains_role(m, ChannelType::RightStrip8),
        ChannelDataField::RightStrip9Energy => spec_contains_role(m, ChannelType::RightStrip9),
        ChannelDataField::RightStrip10Energy => spec_contains_role(m, ChannelType::RightStrip10),
        ChannelDataField::RightStrip11Energy => spec_contains_role(m, ChannelType::RightStrip11),
        ChannelDataField::RightStrip12Energy => spec_contains_role(m, ChannelType::RightStrip12),
        ChannelDataField::RightStrip13Energy => spec_contains_role(m, ChannelType::RightStrip13),
        ChannelDataField::RightStrip14Energy => spec_contains_role(m, ChannelType::RightStrip14),
        ChannelDataField::RightStrip15Energy => spec_contains_role(m, ChannelType::RightStrip15),
        ChannelDataField::RightStrip0Time => spec_contains_role(m, ChannelType::RightStrip0),
        ChannelDataField::RightStrip1Time => spec_contains_role(m, ChannelType::RightStrip1),
        ChannelDataField::RightStrip2Time => spec_contains_role(m, ChannelType::RightStrip2),
        ChannelDataField::RightStrip3Time => spec_contains_role(m, ChannelType::RightStrip3),
        ChannelDataField::RightStrip4Time => spec_contains_role(m, ChannelType::RightStrip4),
        ChannelDataField::RightStrip5Time => spec_contains_role(m, ChannelType::RightStrip5),
        ChannelDataField::RightStrip6Time => spec_contains_role(m, ChannelType::RightStrip6),
        ChannelDataField::RightStrip7Time => spec_contains_role(m, ChannelType::RightStrip7),
        ChannelDataField::RightStrip8Time => spec_contains_role(m, ChannelType::RightStrip8),
        ChannelDataField::RightStrip9Time => spec_contains_role(m, ChannelType::RightStrip9),
        ChannelDataField::RightStrip10Time => spec_contains_role(m, ChannelType::RightStrip10),
        ChannelDataField::RightStrip11Time => spec_contains_role(m, ChannelType::RightStrip11),
        ChannelDataField::RightStrip12Time => spec_contains_role(m, ChannelType::RightStrip12),
        ChannelDataField::RightStrip13Time => spec_contains_role(m, ChannelType::RightStrip13),
        ChannelDataField::RightStrip14Time => spec_contains_role(m, ChannelType::RightStrip14),
        ChannelDataField::RightStrip15Time => spec_contains_role(m, ChannelType::RightStrip15),
        ChannelDataField::Strip0Energy => spec_contains_role(m, ChannelType::Strip0),
        ChannelDataField::Strip17Energy => spec_contains_role(m, ChannelType::Strip17),
        ChannelDataField::Strip0Time => spec_contains_role(m, ChannelType::Strip0),
        ChannelDataField::Strip17Time => spec_contains_role(m, ChannelType::Strip17),
        ChannelDataField::RF => spec_contains_role(m, ChannelType::RF),
    }
}

/// The filtered schema: the declared columns, in schema order.
pub open spec fn spec_filter_fields(
    fs: Seq<ChannelDataField>,
    m: Seq<(u32, RoleData)>,
) -> Seq<ChannelDataField>
    decreases fs.len(),
{
    if fs.len() == 0 {
        Seq::empty()
    } else {
        (if spec_field_included(fs[0], m) {
            seq![fs[0]]
        } else {
            Seq::empty()
        }) + spec_filter_fields(fs.skip(1), m)
    }
}

pub open spec fn spec_filtered_fields(m: Seq<(u32, RoleData)>) -> Seq<ChannelDataField> {
    spec_filter_fields(spec_all_fields(), m)
}


/// The last hit of the event mapped to `role`, scanning from the end.
fn last_role_hit(event: &Vec<Hit>, map: &ChannelMap, role: ChannelType) -> (r: Option<Hit>)
    ensures
        r == spec_last_role_hit(event@, map@, role),
{
    let mut i: usize = event.len();
    proof {
        assert(event@.take(event@.len() as int) =~= event@);
    }
    while i > 0
        invariant
            0 <= i <= event@.len(),
            spec_last_role_hit(event@, map@, role) == spec_last_role_hit(
                event@.take(i as int),
                map@,
                role,
            ),
        decreases i,
    {
        i = i - 1;
        let h = event[i];
        let uuid = channel_uuid(h.board, h.channel);
        let ghost pre = event@.take(i + 1);
        proof {
            assert(pre.last() == event@[i as int]);
            assert(pre.drop_last() =~= event@.take(i as int));
        }
        match map.get_channel_data(uuid) {
            Some(cd) => {
                if cd.channel_type == role {
                    proof {
                        assert(cd == RoleData { channel_type: role });
                    }
                    return Some(h);
                }
            },
            None => {},
        }
    }
    proof {
        assert(event@.take(0).len() == 0);
    }
    None
}

fn energy_cell(o: Option<Hit>) -> (r: CellValue)
    ensures
        r == spec_energy_cell(o),
{
    match o {
        Some(h) => CellValue::Amplitude(h.energy),
        None => CellValue::Unset,
    }
}

fn short_cell(o: Option<Hit>) -> (r: CellValue)
    ensures
        r == spec_short_cell(o),
{
    match o {
        Some(h) => CellValue::Amplitude(h.energy_short),
        None => CellValue::Unset,
    }
}

fn time_cell(o: Option<Hit>) -> (r: CellValue)
    ensures
        r == spec_time_cell(o),
{
    match o {
        Some(h) => CellValue::TimePs(h.timestamp_ps),
        None => CellValue::Unset,
    }
}

fn psd_cell(o: Option<Hit>) -> (r: CellValue)
    ensures
        r == spec_psd_cell(o),
{
    match o {
        Some(h) => CellValue::Psd(h.energy, h.energy_short),
        None => CellValue::Unset,
    }
}

fn delta_cell(det: Option<Hit>, reference: Option<Hit>) -> (r: CellValue)
    ensures
        r == spec_delta_cell(det, reference),
{
    match (det, reference) {
        (Some(d), Some(r)) => CellValue::DeltaPs(d.timestamp_ps as i128 - r.timestamp_ps as i128),
        _ => CellValue::Unset,
    }
}

fn gated_delta_cell(det: Option<Hit>, reference: Option<Hit>, gate: Option<Hit>) -> (r: CellValue)
    ensures
        r == spec_gated_delta_cell(det, reference, gate),
{
    match (det, reference, gate) {
        (Some(d), Some(r), Some(_g)) => CellValue::DeltaPs(
            d.timestamp_ps as i128 - r.timestamp_ps as i128,
        ),
        _ => CellValue::Unset,
    }
}

fn front_cell(dfl: Option<Hit>, dfr: Option<Hit>) -> (r: CellValue)
    ensures
        r == spec_front_cell(dfl, dfr),
{
    match (dfl, dfr) {
        (Some(l), Some(r)) => CellValue::FrontDiffPs(
            l.timestamp_ps as i128 - r.timestamp_ps as i128,
        ),
        _ => CellValue::Unset,
    }
}

fn back_cell(dbl: Option<Hit>, dbr: Option<Hit>) -> (r: CellValue)
    ensures
        r == spec_back_cell(dbl, dbr),
{
    match (dbl, dbr) {
        (Some(l), Some(r)) => CellValue::BackDiffPs(
            l.timestamp_ps as i128 - r.timestamp_ps as i128,
        ),
        _ => CellValue::Unset,
    }
}

fn focal_cell(dfl: Option<Hit>, dfr: Option<Hit>, dbl: Option<Hit>, dbr: Option<Hit>) -> (r:
    CellValue)
    ensures
        r == spec_focal_cell(dfl, dfr, dbl, dbr),
{
    match (dfl, dfr, dbl, dbr) {
        (Some(fl), Some(fr), Some(bl), Some(br)) => CellValue::FocalPair(
            fl.timestamp_ps as i128 - fr.timestamp_ps as i128,
            bl.timestamp_ps as i128 - br.timestamp_ps as i128,
        ),
        _ => CellValue::Unset,
    }
}

/// Computes the cell of one column for one event.
fn cell_value(
    f: &ChannelDataField,
    event: &Vec<Hit>,
    map: &ChannelMap,
    has_weights: bool,
) -> (r: CellValue)
    ensures
        r == spec_cell_value(*f, event@, map@, has_weights),
{
    match f {
    ChannelDataField::AnodeFrontEnergy => energy_cell(last_role_hit(event, map, ChannelType::AnodeFront)),
    ChannelDataField::AnodeFrontShort => short_cell(last_role_hit(event, map, ChannelType::AnodeFront)),
    ChannelDataField::AnodeFrontTime => time_cell(last_role_hit(event, map, ChannelType::AnodeFront)),
    ChannelDataField::AnodeBackEnergy => energy_cell(last_role_hit(event, map, ChannelType::AnodeBack)),
    ChannelDataField::AnodeBackShort => short_cell(last_role_hit(event, map, ChannelType::AnodeBack)),
    ChannelDataField::AnodeBackTime => time_cell(last_role_hit(event, map, ChannelType::AnodeBack)),
    ChannelDataField::ScintLeftEnergy => energy_cell(last_role_hit(event, map, ChannelType::ScintLeft)),
    ChannelDataField::ScintLeftShort => short_cell(last_role_hit(event, map, ChannelType::ScintLeft)),
    ChannelDataField::ScintLeftTime => time_cell(last_role_hit(event, map, ChannelType::ScintLeft)),
    ChannelDataField::ScintRightEnergy => energy_cell(last_role_hit(event, map, ChannelType::ScintRight)),
    ChannelDataField::ScintRightShort => short_cell(last_role_hit(event, map, ChannelType::ScintRight)),
    ChannelDataField::ScintRightTime => time_cell(last_role_hit(event, map, ChannelType::ScintRight)),
    ChannelDataField::CathodeEnergy => energy_cell(last_role_hit(event, map, ChannelType::Cathode)),
    ChannelDataField::CathodeShort => short_cell(last_role_hit(event, map, ChannelType::Cathode)),
    ChannelDataField::CathodeTime => time_cell(last_role_hit(event, map, ChannelType::Cathode)),
    ChannelDataField::DelayFrontLeftEnergy => energy_cell(last_role_hit(event, map, ChannelType::DelayFrontLeft)),
    ChannelDataField::DelayFrontLeftShort => short_cell(last_role_hit(event, map, ChannelType::DelayFrontLeft)),
    ChannelDataField::DelayFrontLeftTime => time_cell(last_role_hit(event, map, ChannelType::DelayFrontLeft)),
    ChannelDataField::DelayFrontRightEnergy => energy_cell(last_role_hit(event, map, ChannelType::DelayFrontRight)),
    ChannelDataField::DelayFrontRightShort => short_cell(last_role_hit(event, map, ChannelType::DelayFrontRight)),
    ChannelDataField::DelayFrontRightTime => time_cell(last_role_hit(event, map, ChannelType::DelayFrontRight)),
    ChannelDataField::DelayBackLeftEnergy => energy_cell(last_role_hit(event, map, ChannelType::DelayBackLeft)),
    ChannelDataField::DelayBackLeftShort => short_cell(last_role_hit(event, map, ChannelType::DelayBackLeft)),
    ChannelDataField::DelayBackLeftTime => time_cell(last_role_hit(event, map, ChannelType::DelayBackLeft)),
    ChannelDataField::DelayBackRightEnergy => energy_cell(last_role_hit(event, map, ChannelType::DelayBackRight)),
    ChannelDataField::DelayBackRightShort => short_cell(last_role_hit(event, map, ChannelType::DelayBackRight)),
    ChannelDataField::DelayBackRightTime => time_cell(last_role_hit(event, map, ChannelType::DelayBackRight)),
    ChannelDataField::MonitorEnergy => energy_cell(last_role_hit(event, map, ChannelType::Monitor)),
    ChannelDataField::MonitorShort => short_cell(last_role_hit(event, map, ChannelType::Monitor)),
    ChannelDataField::MonitorTime => time_cell(last_role_hit(event, map, ChannelType::Monitor)),
    ChannelDataField::X1 => front_cell(last_role_hit(event, map, ChannelType::DelayFrontLeft), last_role_hit(event, map, ChannelType::DelayFrontRight)),
    ChannelDataField::X2 => back_cell(last_role_hit(event, map, ChannelType::DelayBackLeft), last_role_hit(event, map, ChannelType::DelayBackRight)),
    ChannelDataField::Xavg => if has_weights { focal_cell(last_role_hit(event, map, ChannelType::DelayFrontLeft), last_role_hit(event, map, ChannelType::DelayFrontRight), last_role_hit(event, map, ChannelType::DelayBackLeft), last_role_hit(event, map, ChannelType::DelayBackRight)) } else { CellValue::Unset },
    ChannelDataField::Theta => focal_cell(last_role_hit(event, map, ChannelType::DelayFrontLeft), last_role_hit(event, map, ChannelType::DelayFrontRight), last_role_hit(event, map, ChannelType::DelayBackLeft), last_role_hit(event, map, ChannelType::DelayBackRight)),
    ChannelDataField::Cebra0Energy => energy_cell(last_role_hit(event, map, ChannelType::Cebra0)),
    ChannelDataField::Cebra1Energy => energy_cell(last_role_hit(event, map, ChannelType::Cebra1)),
    ChannelDataField::Cebra2Energy => energy_cell(last_role_hit(event, map, ChannelType::Cebra2)),
    ChannelDataField::Cebra3Energy => energy_cell(last_role_hit(event, map, ChannelType::Cebra3)),
    ChannelDataField::Cebra4Energy => energy_cell(last_role_hit(event, map, ChannelType::Cebra4)),
    ChannelDataField::Cebra5Energy => energy_cell(last_role_hit(event, map, ChannelType::Cebra5)),
    ChannelDataField::Cebra6Energy => energy_cell(last_role_hit(event, map, ChannelType::Cebra6)),
    ChannelDataField::Cebra7Energy => energy_cell(last_role_hit(event, map, ChannelType::Cebra7)),
    ChannelDataField::Cebra8Energy => energy_cell(last_role_hit(event, map, ChannelType::Cebra8)),
    ChannelDataField::Cebra0Short => short_cell(last_role_hit(event, map, ChannelType::Cebra0)),
    ChannelDataField::Cebra1Short => short_cell(last_role_hit(event, map, ChannelType::Cebra1)),
    ChannelDataField::Cebra2Short => short_cell(last_role_hit(event, map, ChannelType::Cebra2)),
    ChannelDataField::Cebra3Short => short_cell(last_role_hit(event, map, ChannelType::Cebra3)),
    ChannelDataField::Cebra4Short => short_cell(last_role_hit(event, map, ChannelType::Cebra4)),
    ChannelDataField::Cebra5Short => short_cell(last_role_hit(event, map, ChannelType::Cebra5)),
    ChannelDataField::Cebra6Short => short_cell(last_role_hit(event, map, ChannelType::Cebra6)),
    ChannelDataField::Cebra7Short => short_cell(last_role_hit(event, map, ChannelType::Cebra7)),
    ChannelDataField::Cebra8Short => short_cell(last_role_hit(event, map, ChannelType::Cebra8)),
    ChannelDataField::Cebra0Time => time_cell(last_role_hit(event, map, ChannelType::Cebra0)),
    ChannelDataField::Cebra1Time => time_cell(last_role_hit(event, map, ChannelType::Cebra1)),
    ChannelDataField::Cebra2Time => time_cell(last_role_hit(event, map, ChannelType::Cebra2)),
    ChannelDataField::Cebra3Time => time_cell(last_role_hit(event, map, ChannelType::Cebra3)),
    ChannelDataField::Cebra4Time => time_cell(last_role_hit(event, map, ChannelType::Cebra4)),
    ChannelDataField::Cebra5Time => time_cell(last_role_hit(event, map, ChannelType::Cebra5)),
    ChannelDataField::Cebra6Time => time_cell(last_role_hit(event, map, ChannelType::Cebra6)),
    ChannelDataField::Cebra7Time => time_cell(last_role_hit(event, map, ChannelType::Cebra7)),
    ChannelDataField::Cebra8Time => time_cell(last_role_hit(event, map, ChannelType::Cebra8)),
    ChannelDataField::Cebra0RelTime => gated_delta_cell(last_role_hit(event, map, ChannelType::Cebra0), last_role_hit(event, map, ChannelType::ScintLeft), last_role_hit(event, map, ChannelType::AnodeBack)),
    ChannelDataField::Cebra1RelTime => gated_delta_cell(last_role_hit(event, map, ChannelType::Cebra1), last_role_hit(event, map, ChannelType::ScintLeft), last_role_hit(event, map, ChannelType::AnodeBack)),
    ChannelDataField::Cebra2RelTime => gated_delta_cell(last_role_hit(event, map, ChannelType::Cebra2), last_role_hit(event, map, ChannelType::ScintLeft), last_role_hit(event, map, ChannelType::AnodeBack)),
    ChannelDataField::Cebra3RelTime => gated_delta_cell(last_role_hit(event, map, ChannelType::Cebra3), last_role_hit(event, map, ChannelType::ScintLeft), last_role_hit(event, map, ChannelType::AnodeBack)),
    ChannelDataField::Cebra4RelTime => gated_delta_cell(last_role_hit(event, map, ChannelType::Cebra4), last_role_hit(event, map, ChannelType::ScintLeft), last_role_hit(event, map, ChannelType::AnodeBack)),
    ChannelDataField::Cebra5RelTime => gated_delta_cell(last_role_hit(event, map, ChannelType::Cebra5), last_role_hit(event, map, ChannelType::ScintLeft), last_role_hit(event, map, ChannelType::AnodeBack)),
    ChannelDataField::Cebra6RelTime => gated_delta_cell(last_role_hit(event, map, ChannelType::Cebra6), last_role_hit(event, map, ChannelType::ScintLeft), last_role_hit(event, map, ChannelType::AnodeBack)),
    ChannelDataField::Cebra7RelTime => gated_delta_cell(last_role_hit(event, map, ChannelType::Cebra7), last_role_hit(event, map, ChannelType::ScintLeft), last_role_hit(event, map, ChannelType::AnodeBack)),
    ChannelDataField::Cebra8RelTime => gated_delta_cell(last_role_hit(event, map, ChannelType::Cebra8), last_role_hit(event, map, ChannelType::ScintLeft), last_role_hit(event, map, ChannelType::AnodeBack)),
    ChannelDataField::PIPS1000Energy => energy_cell(last_role_hit(event, map, ChannelType::PIPS1000)),
    ChannelDataField::PIPS500Energy => energy_cell(last_role_hit(event, map, ChannelType::PIPS500)),
    ChannelDataField::PIPS300Energy => energy_cell(last_role_hit(event, map, ChannelType::PIPS300)),
    ChannelDataField::PIPS100Energy => energy_cell(last_role_hit(event, map, ChannelType::PIPS100)),
    ChannelDataField::PIPS1000Time => time_cell(last_role_hit(event, map, ChannelType::PIPS1000)),
    ChannelDataField::PIPS500Time => time_cell(last_role_hit(event, map, ChannelType::PIPS500)),
    ChannelDataField::PIPS300Time => time_cell(last_role_hit(event, map, ChannelType::PIPS300)),
    ChannelDataField::PIPS100Time => time_cell(last_role_hit(event, map, ChannelType::PIPS100)),
    ChannelDataField::PIPS1000RelTime => delta_cell(last_role_hit(event, map, ChannelType::PIPS1000), last_role_hit(event, map, ChannelType::ScintLeft)),
    ChannelDataField::PIPS500RelTime => delta_cell(last_role_hit(event, map, ChannelType::PIPS500), last_role_hit(event, map, ChannelType::ScintLeft)),
    ChannelDataField::PIPS300RelTime => delta_cell(last_role_hit(event, map, ChannelType::PIPS300), last_role_hit(event, map, ChannelType::ScintLeft)),
    ChannelDataField::PIPS100RelTime => delta_cell(last_role_hit(event, map, ChannelType::PIPS100), last_role_hit(event, map, ChannelType::ScintLeft)),
    ChannelDataField::PIPS1000RelTimeToPIPS500 => delta_cell(last_role_hit(event, map, ChannelType::PIPS1000), last_role_hit(event, map, ChannelType::PIPS500)),
    ChannelDataField::PIPS1000RelTimeToPIPS300 => delta_cell(last_role_hit(event, map, ChannelType::PIPS1000), last_role_hit(event, map, ChannelType::PIPS300)),
    ChannelDataField::CATRINA0Energy => energy_cell(last_role_hit(event, map, ChannelType::CATRINA0)),
    ChannelDataField::CATRINA1Energy => energy_cell(last_role_hit(event, map, ChannelType::CATRINA1)),
    ChannelDataField::CATRINA2Energy => energy_cell(last_role_hit(event, map, ChannelType::CATRINA2)),
    ChannelDataField::CATRINA3Energy => energy_cell(last_role_hit(event, map, ChannelType::CATRINA3)),
    ChannelDataField::CATRINA4Energy => energy_cell(last_role_hit(event, map, ChannelType::CATRINA4)),
    ChannelDataField::CATRINA5Energy => energy_cell(last_role_hit(event, map, ChannelType::CATRINA5)),
    ChannelDataField::CATRINA6Energy => energy_cell(last_role_hit(event, map, ChannelType::CATRINA6)),
    ChannelDataField::CATRINA7Energy => energy_cell(last_role_hit(event, map, ChannelType::CATRINA7)),
    ChannelDataField::CATRINA8Energy => energy_cell(last_role_hit(event, map, ChannelType::CATRINA8)),
    ChannelDataField::CATRINA9Energy => energy_cell(last_role_hit(event, map, ChannelType::CATRINA9)),
    ChannelDataField::CATRINA10Energy => energy_cell(last_role_hit(event, map, ChannelType::CATRINA10)),
    ChannelDataField::CATRINA11Energy => energy_cell(last_role_hit(event, map, ChannelType::CATRINA11)),
    ChannelDataField::CATRINA12Energy => energy_cell(last_role_hit(event, map, ChannelType::CATRINA12)),
    ChannelDataField::CATRINA13Energy => energy_cell(last_role_hit(event, map, ChannelType::CATRINA13)),
    ChannelDataField::CATRINA14Energy => energy_cell(last_role_hit(event, map, ChannelType::CATRINA14)),
    ChannelDataField::CATRINA15Energy => energy_cell(last_role_hit(event, map, ChannelType::CATRINA15)),
    ChannelDataField::CATRINA0Short => short_cell(last_role_hit(event, map, ChannelType::CATRINA0)),
    ChannelDataField::CATRINA1Short => short_cell(last_role_hit(event, map, ChannelType::CATRINA1)),
    ChannelDataField::CATRINA2Short => short_cell(last_role_hit(event, map, ChannelType::CATRINA2)),
    ChannelDataField::CATRINA3Short => short_cell(last_role_hit(event, map, ChannelType::CATRINA3)),
    ChannelDataField::CATRINA4Short => short_cell(last_role_hit(event, map, ChannelType::CATRINA4)),
    ChannelDataField::CATRINA5Short => short_cell(last_role_hit(event, map, ChannelType::CATRINA5)),
    ChannelDataField::CATRINA6Short => short_cell(last_role_hit(event, map, ChannelType::CATRINA6)),
    ChannelDataField::CATRINA7Short => short_cell(last_role_hit(event, map, ChannelType::CATRINA7)),
    ChannelDataField::CATRINA8Short => short_cell(last_role_hit(event, map, ChannelType::CATRINA8)),
    ChannelDataField::CATRINA9Short => short_cell(last_role_hit(event, map, ChannelType::CATRINA9)),
    ChannelDataField::CATRINA10Short => short_cell(last_role_hit(event, map, ChannelType::CATRINA10)),
    ChannelDataField::CATRINA11Short => short_cell(last_role_hit(event, map, ChannelType::CATRINA11)),
    ChannelDataField::CATRINA12Short => short_cell(last_role_hit(event, map, ChannelType::CATRINA12)),
    ChannelDataField::CATRINA13Short => short_cell(last_role_hit(event, map, ChannelType::CATRINA13)),
    ChannelDataField::CATRINA14Short => short_cell(last_role_hit(event, map, ChannelType::CATRINA14)),
    ChannelDataField::CATRINA15Short => short_cell(last_role_hit(event, map, ChannelType::CATRINA15)),
    ChannelDataField::CATRINA0Time => time_cell(last_role_hit(event, map, ChannelType::CATRINA0)),
    ChannelDataField::CATRINA1Time => time_cell(last_role_hit(event, map, ChannelType::CATRINA1)),
    ChannelDataField::CATRINA2Time => time_cell(last_role_hit(event, map, ChannelType::CATRINA2)),
    ChannelDataField::CATRINA3Time => time_cell(last_role_hit(event, map, ChannelType::CATRINA3)),
    ChannelDataField::CATRINA4Time => time_cell(last_role_hit(event, map, ChannelType::CATRINA4)),
    ChannelDataField::CATRINA5Time => time_cell(last_role_hit(event, map, ChannelType::CATRINA5)),
    ChannelDataField::CATRINA6Time => time_cell(last_role_hit(event, map, ChannelType::CATRINA6)),
    ChannelDataField::CATRINA7Time => time_cell(last_role_hit(event, map, ChannelType::CATRINA7)),
    ChannelDataField::CATRINA8Time => time_cell(last_role_hit(event, map, ChannelType::CATRINA8)),
    ChannelDataField::CATRINA9Time => time_cell(last_role_hit(event, map, ChannelType::CATRINA9)),
    ChannelDataField::CATRINA10Time => time_cell(last_role_hit(event, map, ChannelType::CATRINA10)),
    ChannelDataField::CATRINA11Time => time_cell(last_role_hit(event, map, ChannelType::CATRINA11)),
    ChannelDataField::CATRINA12Time => time_cell(last_role_hit(event, map, ChannelType::CATRINA12)),
    ChannelDataField::CATRINA13Time => time_cell(last_role_hit(event, map, ChannelType::CATRINA13)),
    ChannelDataField::CATRINA14Time => time_cell(last_role_hit(event, map, ChannelType::CATRINA14)),
    ChannelDataField::CATRINA15Time => time_cell(last_role_hit(event, map, ChannelType::CATRINA15)),
    ChannelDataField::CATRINA0PSD => psd_cell(last_role_hit(event, map, ChannelType::CATRINA0)),
    ChannelDataField::CATRINA1PSD => psd_cell(last_role_hit(event, map, ChannelType::CATRINA1)),
    ChannelDataField::CATRINA2PSD => psd_cell(last_role_hit(event, map, ChannelType::CATRINA2)),
    ChannelDataField::CATRINA3PSD => psd_cell(last_role_hit(event, map, ChannelType::CATRINA3)),
    ChannelDataField::CATRINA4PSD => psd_cell(last_role_hit(event, map, ChannelType::CATRINA4)),
    ChannelDataField::CATRINA5PSD => psd_cell(last_role_hit(event, map, ChannelType::CATRINA5)),
    ChannelDataField::CATRINA6PSD => psd_cell(last_role_hit(event, map, ChannelType::CATRINA6)),
    ChannelDataField::CATRINA7PSD => psd_cell(last_role_hit(event, map, ChannelType::CATRINA7)),
    ChannelDataField::CATRINA8PSD => psd_cell(last_role_hit(event, map, ChannelType::CATRINA8)),
    ChannelDataField::CATRINA9PSD => psd_cell(last_role_hit(event, map, ChannelType::CATRINA9)),
    ChannelDataField::CATRINA10PSD => psd_cell(last_role_hit(event, map, ChannelType::CATRINA10)),
    ChannelDataField::CATRINA11PSD => psd_cell(last_role_hit(event, map, ChannelType::CATRINA11)),
    ChannelDataField::CATRINA12PSD => psd_cell(last_role_hit(event, map, ChannelType::CATRINA12)),
    ChannelDataField::CATRINA13PSD => psd_cell(last_role_hit(event, map, ChannelType::CATRINA13)),
    ChannelDataField::CATRINA14PSD => psd_cell(last_role_hit(event, map, ChannelType::CATRINA14)),
    ChannelDataField::CATRINA15PSD => psd_cell(last_role_hit(event, map, ChannelType::CATRINA15)),
    ChannelDataField::LeftStrip0Energy => energy_cell(last_role_hit(event, map, ChannelType::LeftStrip0)),
    ChannelDataField::LeftStrip1Energy => energy_cell(last_role_hit(event, map, ChannelType::LeftStrip1)),
    ChannelDataField::LeftStrip2Energy => energy_cell(last_role_hit(event, map, ChannelType::LeftStrip2)),
    ChannelDataField::LeftStrip3Energy => energy_cell(last_role_hit(event, map, ChannelType::LeftStrip3)),
    ChannelDataField::LeftStrip4Energy => energy_cell(last_role_hit(event, map, ChannelType::LeftStrip4)),
    ChannelDataField::LeftStrip5Energy => energy_cell(last_role_hit(event, map, ChannelType::LeftStrip5)),
    ChannelDataField::LeftStrip6Energy => energy_cell(last_role_hit(event, map, ChannelType::LeftStrip6)),
    ChannelDataField::LeftStrip7Energy => energy_cell(last_role_hit(event, map, ChannelType::LeftStrip7)),
    ChannelDataField::LeftStrip8Energy => energy_cell(last_role_hit(event, map, ChannelType::LeftStrip8)),
    ChannelDataField::LeftStrip9Energy => energy_cell(last_role_hit(event, map, ChannelType::LeftStrip9)),
    ChannelDataField::LeftStrip10Energy => energy_cell(last_role_hit(event, map, ChannelType::LeftStrip10)),
    ChannelDataField::LeftStrip11Energy => energy_cell(last_role_hit(event, map, ChannelType::LeftStrip11)),
    ChannelDataField::LeftStrip12Energy => energy_cell(last_role_hit(event, map, ChannelType::LeftStrip12)),
    ChannelDataField::LeftStrip13Energy => energy_cell(last_role_hit(event, map, ChannelType::LeftStrip13)),
    ChannelDataField::LeftStrip14Energy => energy_cell(last_role_hit(event, map, ChannelType::LeftStrip14)),
    ChannelDataField::LeftStrip15Energy => energy_cell(last_role_hit(event, map, ChannelType::LeftStrip15)),
    ChannelDataField::LeftStrip0Time => time_cell(last_role_hit(event, map, ChannelType::LeftStrip0)),
    ChannelDataField::LeftStrip1Time => time_cell(last_role_hit(event, map, ChannelType::LeftStrip1)),
    ChannelDataField::LeftStrip2Time => time_cell(last_role_hit(event, map, ChannelType::LeftStrip2)),
    ChannelDataField::LeftStrip3Time => time_cell(last_role_hit(event, map, ChannelType::LeftStrip3)),
    ChannelDataField::LeftStrip4Time => time_cell(last_role_hit(event, map, ChannelType::LeftStrip4)),
    ChannelDataField::LeftStrip5Time => time_cell(last_role_hit(event, map, ChannelType::LeftStrip5)),
    ChannelDataField::LeftStrip6Time => time_cell(last_role_hit(event, map, ChannelType::LeftStrip6)),
    ChannelDataField::LeftStrip7Time => time_cell(last_role_hit(event, map, ChannelType::LeftStrip7)),
    ChannelDataField::LeftStrip8Time => time_cell(last_role_hit(event, map, ChannelType::LeftStrip8)),
    ChannelDataField::LeftStrip9Time => time_cell(last_role_hit(event, map, ChannelType::LeftStrip9)),
    ChannelDataField::LeftStrip10Time => time_cell(last_role_hit(event, map, ChannelType::LeftStrip10)),
    ChannelDataField::LeftStrip11Time => time_cell(last_role_hit(event, map, ChannelType::LeftStrip11)),
    ChannelDataField::LeftStrip12Time => time_cell(last_role_hit(event, map, ChannelType::LeftStrip12)),
    ChannelDataField::LeftStrip13Time => time_cell(last_role_hit(event, map, ChannelType::LeftStrip13)),
    ChannelDataField::LeftStrip14Time => time_cell(last_role_hit(event, map, ChannelType::LeftStrip14)),
    ChannelDataField::LeftStrip15Time => time_cell(last_role_hit(event, map, ChannelType::LeftStrip15)),
    ChannelDataField::RightStrip0Energy => energy_cell(last_role_hit(event, map, ChannelType::RightStrip0)),
    ChannelDataField::RightStrip1Energy => energy_cell(last_role_hit(event, map, ChannelType::RightStrip1)),
    ChannelDataField::RightStrip2Energy => energy_cell(last_role_hit(event, map, ChannelType::RightStrip2)),
    ChannelDataField::RightStrip3Energy => energy_cell(last_role_hit(event, map, ChannelType::RightStrip3)),
    ChannelDataField::RightStrip4Energy => energy_cell(last_role_hit(event, map, ChannelType::RightStrip4)),
    ChannelDataField::RightStrip5Energy => energy_cell(last_role_hit(event, map, ChannelType::RightStrip5)),
    ChannelDataField::RightStrip6Energy => energy_cell(last_role_hit(event, map, ChannelType::RightStrip6)),
    ChannelDataField::RightStrip7Energy => energy_cell(last_role_hit(event, map, ChannelType::RightStrip7)),
    ChannelDataField::RightStrip8Energy => energy_cell(last_role_hit(event, map, ChannelType::RightStrip8)),
    ChannelDataField::RightStrip9Energy => energy_cell(last_role_hit(event, map, ChannelType::RightStrip9)),
    ChannelDataField::RightStrip10Energy => energy_cell(last_role_hit(event, map, ChannelType::RightStrip10)),
    ChannelDataField::RightStrip11Energy => energy_cell(last_role_hit(event, map, ChannelType::RightStrip11)),
    ChannelDataField::RightStrip12Energy => energy_cell(last_role_hit(event, map, ChannelType::RightStrip12)),
    ChannelDataField::RightStrip13Energy => energy_cell(last_role_hit(event, map, ChannelType::RightStrip13)),
    ChannelDataField::RightStrip14Energy => energy_cell(last_role_hit(event, map, ChannelType::RightStrip14)),
    ChannelDataField::RightStrip15Energy => energy_cell(last_role_hit(event, map, ChannelType::RightStrip15)),
    ChannelDataField::RightStrip0Time => time_cell(last_role_hit(event, map, ChannelType::RightStrip0)),
    ChannelDataField::RightStrip1Time => time_cell(last_role_hit(event, map, ChannelType::RightStrip1)),
    ChannelDataField::RightStrip2Time => time_cell(last_role_hit(event, map, ChannelType::RightStrip2)),
    ChannelDataField::RightStrip3Time => time_cell(last_role_hit(event, map, ChannelType::RightStrip3)),
    ChannelDataField::RightStrip4Time => time_cell(last_role_hit(event, map, ChannelType::RightStrip4)),
    ChannelDataField::RightStrip5Time => time_cell(last_role_hit(event, map, ChannelType::RightStrip5)),
    ChannelDataField::RightStrip6Time => time_cell(last_role_hit(event, map, ChannelType::RightStrip6)),
    ChannelDataField::RightStrip7Time => time_cell(last_role_hit(event, map, ChannelType::RightStrip7)),
    ChannelDataField::RightStrip8Time => time_cell(last_role_hit(event, map, ChannelType::RightStrip8)),
    ChannelDataField::RightStrip9Time => time_cell(last_role_hit(event, map, ChannelType::RightStrip9)),
    ChannelDataField::RightStrip10Time => time_cell(last_role_hit(event, map, ChannelType::RightStrip10)),
    ChannelDataField::RightStrip11Time => time_cell(last_role_hit(event, map, ChannelType::RightStrip11)),
    ChannelDataField::RightStrip12Time => time_cell(last_role_hit(event, map, ChannelType::RightStrip12)),
    ChannelDataField::RightStrip13Time => time_cell(last_role_hit(event, map, ChannelType::RightStrip13)),
    ChannelDataField::RightStrip14Time => time_cell(last_role_hit(event, map, ChannelType::RightStrip14)),
    ChannelDataField::RightStrip15Time => time_cell(last_role_hit(event, map, ChannelType::RightStrip15)),
    ChannelDataField::Strip0Energy => energy_cell(last_role_hit(event, map, ChannelType::Strip0)),
    ChannelDataField::Strip17Energy => energy_cell(last_role_hit(event, map, ChannelType::Strip17)),
    ChannelDataField::Strip0Time => time_cell(last_role_hit(event, map, ChannelType::Strip0)),
    ChannelDataField::Strip17Time => time_cell(last_role_hit(event, map, ChannelType::Strip17)),
    ChannelDataField::RF => time_cell(last_role_hit(event, map, ChannelType::RF)),
    }
}


fn push_fields_0(v: &mut Vec<ChannelDataField>)
    ensures
        final(v)@ == old(v)@ + seq![
            ChannelDataField::AnodeFrontEnergy,
            ChannelDataField::AnodeFrontShort,
            ChannelDataField::AnodeFrontTime,
            ChannelDataField::AnodeBackEnergy,
            ChannelDataField::AnodeBackShort,
            ChannelDataField::AnodeBackTime,
            ChannelDataField::ScintLeftEnergy,
            ChannelDataField::ScintLeftShort,
            ChannelDataField::ScintLeftTime,
            ChannelDataField::ScintRightEnergy,
            ChannelDataField::ScintRightShort,
            ChannelDataField::ScintRightTime,
            ChannelDataField::CathodeEnergy,
            ChannelDataField::CathodeShort,
            ChannelDataField::CathodeTime,
            ChannelDataField::DelayFrontLeftEnergy,
            ChannelDataField::DelayFrontLeftShort,
            ChannelDataField::DelayFrontLeftTime,
            ChannelDataField::DelayFrontRightEnergy,
            ChannelDataField::DelayFrontRightShort,
            ChannelDataField::DelayFrontRightTime,
            ChannelDataField::DelayBackLeftEnergy,
            ChannelDataField::DelayBackLeftShort,
            ChannelDataField::DelayBackLeftTime,
            ChannelDataField::DelayBackRightEnergy,
            ChannelDataField::DelayBackRightShort,
            ChannelDataField::DelayBackRightTime,
            ChannelDataField::MonitorEnergy,
        ],
{
    v.push(ChannelDataField::AnodeFrontEnergy);
    v.push(ChannelDataField::AnodeFrontShort);
    v.push(ChannelDataField::AnodeFrontTime);
    v.push(ChannelDataField::AnodeBackEnergy);
    v.push(ChannelDataField::AnodeBackShort);
    v.push(ChannelDataField::AnodeBackTime);
    v.push(ChannelDataField::ScintLeftEnergy);
    v.push(ChannelDataField::ScintLeftShort);
    v.push(ChannelDataField::ScintLeftTime);
    v.push(ChannelDataField::ScintRightEnergy);
    v.push(ChannelDataField::ScintRightShort);
    v.push(ChannelDataField::ScintRightTime);
    v.push(ChannelDataField::CathodeEnergy);
    v.push(ChannelDataField::CathodeShort);
    v.push(ChannelDataField::CathodeTime);
    v.push(ChannelDataField::DelayFrontLeftEnergy);
    v.push(ChannelDataField::DelayFrontLeftShort);
    v.push(ChannelDataField::DelayFrontLeftTime);
    v.push(ChannelDataField::DelayFrontRightEnergy);
    v.push(ChannelDataField::DelayFrontRightShort);
    v.push(ChannelDataField::DelayFrontRightTime);
    v.push(ChannelDataField::DelayBackLeftEnergy);
    v.push(ChannelDataField::DelayBackLeftShort);
    v.push(ChannelDataField::DelayBackLeftTime);
    v.push(ChannelDataField::DelayBackRightEnergy);
    v.push(ChannelDataField::DelayBackRightShort);
    v.push(ChannelDataField::DelayBackRightTime);
    v.push(ChannelDataField::MonitorEnergy);
    proof {
        assert(v@ =~= old(v)@ + seq![
            ChannelDataField::AnodeFrontEnergy,
            ChannelDataField::AnodeFrontShort,
            ChannelDataField::AnodeFrontTime,
            ChannelDataField::AnodeBackEnergy,
            ChannelDataField::AnodeBackShort,
            ChannelDataField::AnodeBackTime,
            ChannelDataField::ScintLeftEnergy,
            ChannelDataField::ScintLeftShort,
            ChannelDataField::ScintLeftTime,
            ChannelDataField::ScintRightEnergy,
            ChannelDataField::ScintRightShort,
            ChannelDataField::ScintRightTime,
            ChannelDataField::CathodeEnergy,
            ChannelDataField::CathodeShort,
            ChannelDataField::CathodeTime,
            ChannelDataField::DelayFrontLeftEnergy,
            ChannelDataField::DelayFrontLeftShort,
            ChannelDataField::DelayFrontLeftTime,
            ChannelDataField::DelayFrontRightEnergy,
            ChannelDataField::DelayFrontRightShort,
            ChannelDataField::DelayFrontRightTime,
            ChannelDataField::DelayBackLeftEnergy,
            ChannelDataField::DelayBackLeftShort,
            ChannelDataField::DelayBackLeftTime,
            ChannelDataField::DelayBackRightEnergy,
            ChannelDataField::DelayBackRightShort,
            ChannelDataField::DelayBackRightTime,
            ChannelDataField::MonitorEnergy,
        ]);
    }
}


fn push_fields_1(v: &mut Vec<ChannelDataField>)
    ensures
        final(v)@ == old(v)@ + seq![
            ChannelDataField::MonitorShort,
            ChannelDataField::MonitorTime,
            ChannelDataField::X1,
            ChannelDataField::X2,
            ChannelDataField::Xavg,
            ChannelDataField::Theta,
            ChannelDataField::Cebra0Energy,
            ChannelDataField::Cebra1Energy,
            ChannelDataField::Cebra2Energy,
            ChannelDataField::Cebra3Energy,
            ChannelDataField::Cebra4Energy,
            ChannelDataField::Cebra5Energy,
            ChannelDataField::Cebra6Energy,
            ChannelDataField::Cebra7Energy,
            ChannelDataField::Cebra8Energy,
            ChannelDataField::Cebra0Short,
            ChannelDataField::Cebra1Short,
            ChannelDataField::Cebra2Short,
            ChannelDataField::Cebra3Short,
            ChannelDataField::Cebra4Short,
            ChannelDataField::Cebra5Short,
            ChannelDataField::Cebra6Short,
            ChannelDataField::Cebra7Short,
            ChannelDataField::Cebra8Short,
            ChannelDataField::Cebra0Time,
            ChannelDataField::Cebra1Time,
            ChannelDataField::Cebra2Time,
            ChannelDataField::Cebra3Time,
        ],
{
    v.push(ChannelDataField::MonitorShort);
    v.push(ChannelDataField::MonitorTime);
    v.push(ChannelDataField::X1);
    v.push(ChannelDataField::X2);
    v.push(ChannelDataField::Xavg);
    v.push(ChannelDataField::Theta);
    v.push(ChannelDataField::Cebra0Energy);
    v.push(ChannelDataField::Cebra1Energy);
    v.push(ChannelDataField::Cebra2Energy);
    v.push(ChannelDataField::Cebra3Energy);
    v.push(ChannelDataField::Cebra4Energy);
    v.push(ChannelDataField::Cebra5Energy);
    v.push(ChannelDataField::Cebra6Energy);
    v.push(ChannelDataField::Cebra7Energy);
    v.push(ChannelDataField::Cebra8Energy);
    v.push(ChannelDataField::Cebra0Short);
    v.push(ChannelDataField::Cebra1Short);
    v.push(ChannelDataField::Cebra2Short);
    v.push(ChannelDataField::Cebra3Short);
    v.push(ChannelDataField::Cebra4Short);
    v.push(ChannelDataField::Cebra5Short);
    v.push(ChannelDataField::Cebra6Short);
    v.push(ChannelDataField::Cebra7Short);
    v.push(ChannelDataField::Cebra8Short);
    v.push(ChannelDataField::Cebra0Time);
    v.push(ChannelDataField::Cebra1Time);
    v.push(ChannelDataField::Cebra2Time);
    v.push(ChannelDataField::Cebra3Time);
    proof {
        assert(v@ =~= old(v)@ + seq![
            ChannelDataField::MonitorShort,
            ChannelDataField::MonitorTime,
            ChannelDataField::X1,
            ChannelDataField::X2,
            ChannelDataField::Xavg,
            ChannelDataField::Theta,
            ChannelDataField::Cebra0Energy,
            ChannelDataField::Cebra1Energy,
            ChannelDataField::Cebra2Energy,
            ChannelDataField::Cebra3Energy,
            ChannelDataField::Cebra4Energy,
            ChannelDataField::Cebra5Energy,
            ChannelDataField::Cebra6Energy,
            ChannelDataField::Cebra7Energy,
            ChannelDataField::Cebra8Energy,
            ChannelDataField::Cebra0Short,
            ChannelDataField::Cebra1Short,
            ChannelDataField::Cebra2Short,
            ChannelDataField::Cebra3Short,
            ChannelDataField::Cebra4Short,
            ChannelDataField::Cebra5Short,
            ChannelDataField::Cebra6Short,
            ChannelDataField::Cebra7Short,
            ChannelDataField::Cebra8Short,
            ChannelDataField::Cebra0Time,
            ChannelDataField::Cebra1Time,
            ChannelDataField::Cebra2Time,
            ChannelDataField::Cebra3Time,
        ]);
    }
}


fn push_fields_2(v: &mut Vec<ChannelDataField>)
    ensures
        final(v)@ == old(v)@ + seq![
            ChannelDataField::Cebra4Time,
            ChannelDataField::Cebra5Time,
            ChannelDataField::Cebra6Time,
            ChannelDataField::Cebra7Time,
            ChannelDataField::Cebra8Time,
            ChannelDataField::Cebra0RelTime,
            ChannelDataField::Cebra1RelTime,
            ChannelDataField::Cebra2RelTime,
            ChannelDataField::Cebra3RelTime,
            ChannelDataField::Cebra4RelTime,
            ChannelDataField::Cebra5RelTime,
            ChannelDataField::Cebra6RelTime,
            ChannelDataField::Cebra7RelTime,
            ChannelDataField::Cebra8RelTime,
            ChannelDataField::PIPS1000Energy,
            ChannelDataField::PIPS500Energy,
            ChannelDataField::PIPS300Energy,
            ChannelDataField::PIPS100Energy,
            ChannelDataField::PIPS1000Time,
            ChannelDataField::PIPS500Time,
            ChannelDataField::PIPS300Time,
            ChannelDataField::PIPS100Time,
            ChannelDataField::PIPS1000RelTime,
            ChannelDataField::PIPS500RelTime,
            ChannelDataField::PIPS300RelTime,
            ChannelDataField::PIPS100RelTime,
            ChannelDataField::PIPS1000RelTimeToPIPS500,
            ChannelDataField::PIPS1000RelTimeToPIPS300,
        ],
{
    v.push(ChannelDataField::Cebra4Time);
    v.push(ChannelDataField::Cebra5Time);
    v.push(ChannelDataField::Cebra6Time);
    v.push(ChannelDataField::Cebra7Time);
    v.push(ChannelDataField::Cebra8Time);
    v.push(ChannelDataField::Cebra0RelTime);
    v.push(ChannelDataField::Cebra1RelTime);
    v.push(ChannelDataField::Cebra2RelTime);
    v.push(ChannelDataField::Cebra3RelTime);
    v.push(ChannelDataField::Cebra4RelTime);
    v.push(ChannelDataField::Cebra5RelTime);
    v.push(ChannelDataField::Cebra6RelTime);
    v.push(ChannelDataField::Cebra7RelTime);
    v.push(ChannelDataField::Cebra8RelTime);
    v.push(ChannelDataField::PIPS1000Energy);
    v.push(ChannelDataField::PIPS500Energy);
    v.push(ChannelDataField::PIPS300Energy);
    v.push(ChannelDataField::PIPS100Energy);
    v.push(ChannelDataField::PIPS1000Time);
    v.push(ChannelDataField::PIPS500Time);
    v.push(ChannelDataField::PIPS300Time);
    v.push(ChannelDataField::PIPS100Time);
    v.push(ChannelDataField::PIPS1000RelTime);
    v.push(ChannelDataField::PIPS500RelTime);
    v.push(ChannelDataField::PIPS300RelTime);
    v.push(ChannelDataField::PIPS100RelTime);
    v.push(ChannelDataField::PIPS1000RelTimeToPIPS500);
    v.push(ChannelDataField::PIPS1000RelTimeToPIPS300);
    proof {
        assert(v@ =~= old(v)@ + seq![
            ChannelDataField::Cebra4Time,
            ChannelDataField::Cebra5Time,
            ChannelDataField::Cebra6Time,
            ChannelDataField::Cebra7Time,
            ChannelDataField::Cebra8Time,
            ChannelDataField::Cebra0RelTime,
            ChannelDataField::Cebra1RelTime,
            ChannelDataField::Cebra2RelTime,
            ChannelDataField::Cebra3RelTime,
            ChannelDataField::Cebra4RelTime,
            ChannelDataField::Cebra5RelTime,
            ChannelDataField::Cebra6RelTime,
            ChannelDataField::Cebra7RelTime,
            ChannelDataField::Cebra8RelTime,
            ChannelDataField::PIPS1000Energy,
            ChannelDataField::PIPS500Energy,
            ChannelDataField::PIPS300Energy,
            ChannelDataField::PIPS100Energy,
            ChannelDataField::PIPS1000Time,
            ChannelDataField::PIPS500Time,
            ChannelDataField::PIPS300Time,
            ChannelDataField::PIPS100Time,
            ChannelDataField::PIPS1000RelTime,
            ChannelDataField::PIPS500RelTime,
            ChannelDataField::PIPS300RelTime,
            ChannelDataField::PIPS100RelTime,
            ChannelDataField::PIPS1000RelTimeToPIPS500,
            ChannelDataField::PIPS1000RelTimeToPIPS300,
        ]);
    }
}


fn push_fields_3(v: &mut Vec<ChannelDataField>)
    ensures
        final(v)@ == old(v)@ + seq![
            ChannelDataField::CATRINA0Energy,
            ChannelDataField::CATRINA1Energy,
            ChannelDataField::CATRINA2Energy,
            ChannelDataField::CATRINA3Energy,
            ChannelDataField::CATRINA4Energy,
            ChannelDataField::CATRINA5Energy,
            ChannelDataField::CATRINA6Energy,
            ChannelDataField::CATRINA7Energy,
            ChannelDataField::CATRINA8Energy,
            ChannelDataField::CATRINA9Energy,
            ChannelDataField::CATRINA10Energy,
            ChannelDataField::CATRINA11Energy,
            ChannelDataField::CATRINA12Energy,
            ChannelDataField::CATRINA13Energy,
            ChannelDataField::CATRINA14Energy,
            ChannelDataField::CATRINA15Energy,
            ChannelDataField::CATRINA0Short,
            ChannelDataField::CATRINA1Short,
            ChannelDataField::CATRINA2Short,
            ChannelDataField::CATRINA3Short,
            ChannelDataField::CATRINA4Short,
            ChannelDataField::CATRINA5Short,
            ChannelDataField::CATRINA6Short,
            ChannelDataField::CATRINA7Short,
            ChannelDataField::CATRINA8Short,
            ChannelDataField::CATRINA9Short,
            ChannelDataField::CATRINA10Short,
            ChannelDataField::CATRINA11Short,
        ],
{
    v.push(ChannelDataField::CATRINA0Energy);
    v.push(ChannelDataField::CATRINA1Energy);
    v.push(ChannelDataField::CATRINA2Energy);
    v.push(ChannelDataField::CATRINA3Energy);
    v.push(ChannelDataField::CATRINA4Energy);
    v.push(ChannelDataField::CATRINA5Energy);
    v.push(ChannelDataField::CATRINA6Energy);
    v.push(ChannelDataField::CATRINA7Energy);
    v.push(ChannelDataField::CATRINA8Energy);
    v.push(ChannelDataField::CATRINA9Energy);
    v.push(ChannelDataField::CATRINA10Energy);
    v.push(ChannelDataField::CATRINA11Energy);
    v.push(ChannelDataField::CATRINA12Energy);
    v.push(ChannelDataField::CATRINA13Energy);
    v.push(ChannelDataField::CATRINA14Energy);
    v.push(ChannelDataField::CATRINA15Energy);
    v.push(ChannelDataField::CATRINA0Short);
    v.push(ChannelDataField::CATRINA1Short);
    v.push(ChannelDataField::CATRINA2Short);
    v.push(ChannelDataField::CATRINA3Short);
    v.push(ChannelDataField::CATRINA4Short);
    v.push(ChannelDataField::CATRINA5Short);
    v.push(ChannelDataField::CATRINA6Short);
    v.push(ChannelDataField::CATRINA7Short);
    v.push(ChannelDataField::CATRINA8Short);
    v.push(ChannelDataField::CATRINA9Short);
    v.push(ChannelDataField::CATRINA10Short);
    v.push(ChannelDataField::CATRINA11Short);
    proof {
        assert(v@ =~= old(v)@ + seq![
            ChannelDataField::CATRINA0Energy,
            ChannelDataField::CATRINA1Energy,
            ChannelDataField::CATRINA2Energy,
            ChannelDataField::CATRINA3Energy,
            ChannelDataField::CATRINA4Energy,
            ChannelDataField::CATRINA5Energy,
            ChannelDataField::CATRINA6Energy,
            ChannelDataField::CATRINA7Energy,
            ChannelDataField::CATRINA8Energy,
            ChannelDataField::CATRINA9Energy,
            ChannelDataField::CATRINA10Energy,
            ChannelDataField::CATRINA11Energy,
            ChannelDataField::CATRINA12Energy,
            ChannelDataField::CATRINA13Energy,
            ChannelDataField::CATRINA14Energy,
            ChannelDataField::CATRINA15Energy,
            ChannelDataField::CATRINA0Short,
            ChannelDataField::CATRINA1Short,
            ChannelDataField::CATRINA2Short,
            ChannelDataField::CATRINA3Short,
            ChannelDataField::CATRINA4Short,
            ChannelDataField::CATRINA5Short,
            ChannelDataField::CATRINA6Short,
            ChannelDataField::CATRINA7Short,
            ChannelDataField::CATRINA8Short,
            ChannelDataField::CATRINA9Short,
            ChannelDataField::CATRINA10Short,
            ChannelDataField::CATRINA11Short,
        ]);
    }
}


fn push_fields_4(v: &mut Vec<ChannelDataField>)
    ensures
        final(v)@ == old(v)@ + seq![
            ChannelDataField::CATRINA12Short,
            ChannelDataField::CATRINA13Short,
            ChannelDataField::CATRINA14Short,
            ChannelDataField::CATRINA15Short,
            ChannelDataField::CATRINA0Time,
            ChannelDataField::CATRINA1Time,
            ChannelDataField::CATRINA2Time,
            ChannelDataField::CATRINA3Time,
            ChannelDataField::CATRINA4Time,
            ChannelDataField::CATRINA5Time,
            ChannelDataField::CATRINA6Time,
            ChannelDataField::CATRINA7Time,
            ChannelDataField::CATRINA8Time,
            ChannelDataField::CATRINA9Time,
            ChannelDataField::CATRINA10Time,
            ChannelDataField::CATRINA11Time,
            ChannelDataField::CATRINA12Time,
            ChannelDataField::CATRINA13Time,
            ChannelDataField::CATRINA14Time,
            ChannelDataField::CATRINA15Time,
            ChannelDataField::CATRINA0PSD,
            ChannelDataField::CATRINA1PSD,
            ChannelDataField::CATRINA2PSD,
            ChannelDataField::CATRINA3PSD,
            ChannelDataField::CATRINA4PSD,
            ChannelDataField::CATRINA5PSD,
            ChannelDataField::CATRINA6PSD,
            ChannelDataField::CATRINA7PSD,
        ],
{
    v.push(ChannelDataField::CATRINA12Short);
    v.push(ChannelDataField::CATRINA13Short);
    v.push(ChannelDataField::CATRINA14Short);
    v.push(ChannelDataField::CATRINA15Short);
    v.push(ChannelDataField::CATRINA0Time);
    v.push(ChannelDataField::CATRINA1Time);
    v.push(ChannelDataField::CATRINA2Time);
    v.push(ChannelDataField::CATRINA3Time);
    v.push(ChannelDataField::CATRINA4Time);
    v.push(ChannelDataField::CATRINA5Time);
    v.push(ChannelDataField::CATRINA6Time);
    v.push(ChannelDataField::CATRINA7Time);
    v.push(ChannelDataField::CATRINA8Time);
    v.push(ChannelDataField::CATRINA9Time);
    v.push(ChannelDataField::CATRINA10Time);
    v.push(ChannelDataField::CATRINA11Time);
    v.push(ChannelDataField::CATRINA12Time);
    v.push(ChannelDataField::CATRINA13Time);
    v.push(ChannelDataField::CATRINA14Time);
    v.push(ChannelDataField::CATRINA15Time);
    v.push(ChannelDataField::CATRINA0PSD);
    v.push(ChannelDataField::CATRINA1PSD);
    v.push(ChannelDataField::CATRINA2PSD);
    v.push(ChannelDataField::CATRINA3PSD);
    v.push(ChannelDataField::CATRINA4PSD);
    v.push(ChannelDataField::CATRINA5PSD);
    v.push(ChannelDataField::CATRINA6PSD);
    v.push(ChannelDataField::CATRINA7PSD);
    proof {
        assert(v@ =~= old(v)@ + seq![
            ChannelDataField::CATRINA12Short,
            ChannelDataField::CATRINA13Short,
            ChannelDataField::CATRINA14Short,
            ChannelDataField::CATRINA15Short,
            ChannelDataField::CATRINA0Time,
            ChannelDataField::CATRINA1Time,
            ChannelDataField::CATRINA2Time,
            ChannelDataField::CATRINA3Time,
            ChannelDataField::CATRINA4Time,
            ChannelDataField::CATRINA5Time,
            ChannelDataField::CATRINA6Time,
            ChannelDataField::CATRINA7Time,
            ChannelDataField::CATRINA8Time,
            ChannelDataField::CATRINA9Time,
            ChannelDataField::CATRINA10Time,
            ChannelDataField::CATRINA11Time,
            ChannelDataField::CATRINA12Time,
            ChannelDataField::CATRINA13Time,
            ChannelDataField::CATRINA14Time,
            ChannelDataField::CATRINA15Time,
            ChannelDataField::CATRINA0PSD,
            ChannelDataField::CATRINA1PSD,
            ChannelDataField::CATRINA2PSD,
            ChannelDataField::CATRINA3PSD,
            ChannelDataField::CATRINA4PSD,
            ChannelDataField::CATRINA5PSD,
            ChannelDataField::CATRINA6PSD,
            ChannelDataField::CATRINA7PSD,
        ]);
    }
}


fn push_fields_5(v: &mut Vec<ChannelDataField>)
    ensures
        final(v)@ == old(v)@ + seq![
            ChannelDataField::CATRINA8PSD,
            ChannelDataField::CATRINA9PSD,
            ChannelDataField::CATRINA10PSD,
            ChannelDataField::CATRINA11PSD,
            ChannelDataField::CATRINA12PSD,
            ChannelDataField::CATRINA13PSD,
            ChannelDataField::CATRINA14PSD,
            ChannelDataField::CATRINA15PSD,
            ChannelDataField::LeftStrip0Energy,
            ChannelDataField::LeftStrip1Energy,
            ChannelDataField::LeftStrip2Energy,
            ChannelDataField::LeftStrip3Energy,
            ChannelDataField::LeftStrip4Energy,
            ChannelDataField::LeftStrip5Energy,
            ChannelDataField::LeftStrip6Energy,
            ChannelDataField::LeftStrip7Energy,
            ChannelDataField::LeftStrip8Energy,
            ChannelDataField::LeftStrip9Energy,
            ChannelDataField::LeftStrip10Energy,
            ChannelDataField::LeftStrip11Energy,
            ChannelDataField::LeftStrip12Energy,
            ChannelDataField::LeftStrip13Energy,
            ChannelDataField::LeftStrip14Energy,
            ChannelDataField::LeftStrip15Energy,
            ChannelDataField::LeftStrip0Time,
            ChannelDataField::LeftStrip1Time,
            ChannelDataField::LeftStrip2Time,
            ChannelDataField::LeftStrip3Time,
        ],
{
    v.push(ChannelDataField::CATRINA8PSD);
    v.push(ChannelDataField::CATRINA9PSD);
    v.push(ChannelDataField::CATRINA10PSD);
    v.push(ChannelDataField::CATRINA11PSD);
    v.push(ChannelDataField::CATRINA12PSD);
    v.push(ChannelDataField::CATRINA13PSD);
    v.push(ChannelDataField::CATRINA14PSD);
    v.push(ChannelDataField::CATRINA15PSD);
    v.push(ChannelDataField::LeftStrip0Energy);
    v.push(ChannelDataField::LeftStrip1Energy);
    v.push(ChannelDataField::LeftStrip2Energy);
    v.push(ChannelDataField::LeftStrip3Energy);
    v.push(ChannelDataField::LeftStrip4Energy);
    v.push(ChannelDataField::LeftStrip5Energy);
    v.push(ChannelDataField::LeftStrip6Energy);
    v.push(ChannelDataField::LeftStrip7Energy);
    v.push(ChannelDataField::LeftStrip8Energy);
    v.push(ChannelDataField::LeftStrip9Energy);
    v.push(ChannelDataField::LeftStrip10Energy);
    v.push(ChannelDataField::LeftStrip11Energy);
    v.push(ChannelDataField::LeftStrip12Energy);
    v.push(ChannelDataField::LeftStrip13Energy);
    v.push(ChannelDataField::LeftStrip14Energy);
    v.push(ChannelDataField::LeftStrip15Energy);
    v.push(ChannelDataField::LeftStrip0Time);
    v.push(ChannelDataField::LeftStrip1Time);
    v.push(ChannelDataField::LeftStrip2Time);
    v.push(ChannelDataField::LeftStrip3Time);
    proof {
        assert(v@ =~= old(v)@ + seq![
            ChannelDataField::CATRINA8PSD,
            ChannelDataField::CATRINA9PSD,
            ChannelDataField::CATRINA10PSD,
            ChannelDataField::CATRINA11PSD,
            ChannelDataField::CATRINA12PSD,
            ChannelDataField::CATRINA13PSD,
            ChannelDataField::CATRINA14PSD,
            ChannelDataField::CATRINA15PSD,
            ChannelDataField::LeftStrip0Energy,
            ChannelDataField::LeftStrip1Energy,
            ChannelDataField::LeftStrip2Energy,
            ChannelDataField::LeftStrip3Energy,
            ChannelDataField::LeftStrip4Energy,
            ChannelDataField::LeftStrip5Energy,
            ChannelDataField::LeftStrip6Energy,
            ChannelDataField::LeftStrip7Energy,
            ChannelDataField::LeftStrip8Energy,
            ChannelDataField::LeftStrip9Energy,
            ChannelDataField::LeftStrip10Energy,
            ChannelDataField::LeftStrip11Energy,
            ChannelDataField::LeftStrip12Energy,
            ChannelDataField::LeftStrip13Energy,
            ChannelDataField::LeftStrip14Energy,
            ChannelDataField::LeftStrip15Energy,
            ChannelDataField::LeftStrip0Time,
            ChannelDataField::LeftStrip1Time,
            ChannelDataField::LeftStrip2Time,
            ChannelDataField::LeftStrip3Time,
        ]);
    }
}


fn push_fields_6(v: &mut Vec<ChannelDataField>)
    ensures
        final(v)@ == old(v)@ + seq![
            ChannelDataField::LeftStrip4Time,
            ChannelDataField::LeftStrip5Time,
            ChannelDataField::LeftStrip6Time,
            ChannelDataField::LeftStrip7Time,
            ChannelDataField::LeftStrip8Time,
            ChannelDataField::LeftStrip9Time,
            ChannelDataField::LeftStrip10Time,
            ChannelDataField::LeftStrip11Time,
            ChannelDataField::LeftStrip12Time,
            ChannelDataField::LeftStrip13Time,
            ChannelDataField::LeftStrip14Time,
            ChannelDataField::LeftStrip15Time,
            ChannelDataField::RightStrip0Energy,
            ChannelDataField::RightStrip1Energy,
            ChannelDataField::RightStrip2Energy,
            ChannelDataField::RightStrip3Energy,
            ChannelDataField::RightStrip4Energy,
            ChannelDataField::RightStrip5Energy,
            ChannelDataField::RightStrip6Energy,
            ChannelDataField::RightStrip7Energy,
            ChannelDataField::RightStrip8Energy,
            ChannelDataField::RightStrip9Energy,
            ChannelDataField::RightStrip10Energy,
            ChannelDataField::RightStrip11Energy,
            ChannelDataField::RightStrip12Energy,
            ChannelDataField::RightStrip13Energy,
            ChannelDataField::RightStrip14Energy,
            ChannelDataField::RightStrip15Energy,
        ],
{
    v.push(ChannelDataField::LeftStrip4Time);
    v.push(ChannelDataField::LeftStrip5Time);
    v.push(ChannelDataField::LeftStrip6Time);
    v.push(ChannelDataField::LeftStrip7Time);
    v.push(ChannelDataField::LeftStrip8Time);
    v.push(ChannelDataField::LeftStrip9Time);
    v.push(ChannelDataField::LeftStrip10Time);
    v.push(ChannelDataField::LeftStrip11Time);
    v.push(ChannelDataField::LeftStrip12Time);
    v.push(ChannelDataField::LeftStrip13Time);
    v.push(ChannelDataField::LeftStrip14Time);
    v.push(ChannelDataField::LeftStrip15Time);
    v.push(ChannelDataField::RightStrip0Energy);
    v.push(ChannelDataField::RightStrip1Energy);
    v.push(ChannelDataField::RightStrip2Energy);
    v.push(ChannelDataField::RightStrip3Energy);
    v.push(ChannelDataField::RightStrip4Energy);
    v.push(ChannelDataField::RightStrip5Energy);
    v.push(ChannelDataField::RightStrip6Energy);
    v.push(ChannelDataField::RightStrip7Energy);
    v.push(ChannelDataField::RightStrip8Energy);
    v.push(ChannelDataField::RightStrip9Energy);
    v.push(ChannelDataField::RightStrip10Energy);
    v.push(ChannelDataField::RightStrip11Energy);
    v.push(ChannelDataField::RightStrip12Energy);
    v.push(ChannelDataField::RightStrip13Energy);
    v.push(ChannelDataField::RightStrip14Energy);
    v.push(ChannelDataField::RightStrip15Energy);
    proof {
        assert(v@ =~= old(v)@ + seq![
            ChannelDataField::LeftStrip4Time,
            ChannelDataField::LeftStrip5Time,
            ChannelDataField::LeftStrip6Time,
            ChannelDataField::LeftStrip7Time,
            ChannelDataField::LeftStrip8Time,
            ChannelDataField::LeftStrip9Time,
            ChannelDataField::LeftStrip10Time,
            ChannelDataField::LeftStrip11Time,
            ChannelDataField::LeftStrip12Time,
            ChannelDataField::LeftStrip13Time,
            ChannelDataField::LeftStrip14Time,
            ChannelDataField::LeftStrip15Time,
            ChannelDataField::RightStrip0Energy,
            ChannelDataField::RightStrip1Energy,
            ChannelDataField::RightStrip2Energy,
            ChannelDataField::RightStrip3Energy,
            ChannelDataField::RightStrip4Energy,
            ChannelDataField::RightStrip5Energy,
            ChannelDataField::RightStrip6Energy,
            ChannelDataField::RightStrip7Energy,
            ChannelDataField::RightStrip8Energy,
            ChannelDataField::RightStrip9Energy,
            ChannelDataField::RightStrip10Energy,
            ChannelDataField::RightStrip11Energy,
            ChannelDataField::RightStrip12Energy,
            ChannelDataField::RightStrip13Energy,
            ChannelDataField::RightStrip14Energy,
            ChannelDataField::RightStrip15Energy,
        ]);
    }
}


fn push_fields_7(v: &mut Vec<ChannelDataField>)
    ensures
        final(v)@ == old(v)@ + seq![
            ChannelDataField::RightStrip0Time,
            ChannelDataField::RightStrip1Time,
            ChannelDataField::RightStrip2Time,
            ChannelDataField::RightStrip3Time,
            ChannelDataField::RightStrip4Time,
            ChannelDataField::RightStrip5Time,
            ChannelDataField::RightStrip6Time,
            ChannelDataField::RightStrip7Time,
            ChannelDataField::RightStrip8Time,
            ChannelDataField::RightStrip9Time,
            ChannelDataField::RightStrip10Time,
            ChannelDataField::RightStrip11Time,
            ChannelDataField::RightStrip12Time,
            ChannelDataField::RightStrip13Time,
            ChannelDataField::RightStrip14Time,
            ChannelDataField::RightStrip15Time,
            ChannelDataField::Strip0Energy,
            ChannelDataField::Strip17Energy,
            ChannelDataField::Strip0Time,
            ChannelDataField::Strip17Time,
            ChannelDataField::RF,
        ],
{
    v.push(ChannelDataField::RightStrip0Time);
    v.push(ChannelDataField::RightStrip1Time);
    v.push(ChannelDataField::RightStrip2Time);
    v.push(ChannelDataField::RightStrip3Time);
    v.push(ChannelDataField::RightStrip4Time);
    v.push(ChannelDataField::RightStrip5Time);
    v.push(ChannelDataField::RightStrip6Time);
    v.push(ChannelDataField::RightStrip7Time);
    v.push(ChannelDataField::RightStrip8Time);
    v.push(ChannelDataField::RightStrip9Time);
    v.push(ChannelDataField::RightStrip10Time);
    v.push(ChannelDataField::RightStrip11Time);
    v.push(ChannelDataField::RightStrip12Time);
    v.push(ChannelDataField::RightStrip13Time);
    v.push(ChannelDataField::RightStrip14Time);
    v.push(ChannelDataField::RightStrip15Time);
    v.push(ChannelDataField::Strip0Energy);
    v.push(ChannelDataField::Strip17Energy);
    v.push(ChannelDataField::Strip0Time);
    v.push(ChannelDataField::Strip17Time);
    v.push(ChannelDataField::RF);
    proof {
        assert(v@ =~= old(v)@ + seq![
            ChannelDataField::RightStrip0Time,
            ChannelDataField::RightStrip1Time,
            ChannelDataField::RightStrip2Time,
            ChannelDataField::RightStrip3Time,
            ChannelDataField::RightStrip4Time,
            ChannelDataField::RightStrip5Time,
            ChannelDataField::RightStrip6Time,
            ChannelDataField::RightStrip7Time,
            ChannelDataField::RightStrip8Time,
            ChannelDataField::RightStrip9Time,
            ChannelDataField::RightStrip10Time,
            ChannelDataField::RightStrip11Time,
            ChannelDataField::RightStrip12Time,
            ChannelDataField::RightStrip13Time,
            ChannelDataField::RightStrip14Time,
            ChannelDataField::RightStrip15Time,
            ChannelDataField::Strip0Energy,
            ChannelDataField::Strip17Energy,
            ChannelDataField::Strip0Time,
            ChannelDataField::Strip17Time,
            ChannelDataField::RF,
        ]);
    }
}

impl ChannelDataField {
    /// All schema columns, in order.
    #[verifier::rlimit(100)]
    pub fn get_field_vec() -> (r: Vec<ChannelDataField>)
        ensures
            r@ == spec_all_fields(),
    {
        let mut v: Vec<ChannelDataField> = Vec::new();
        push_fields_0(&mut v);
        push_fields_1(&mut v);
        push_fields_2(&mut v);
        push_fields_3(&mut v);
        push_fields_4(&mut v);
        push_fields_5(&mut v);
        push_fields_6(&mut v);
        push_fields_7(&mut v);
        proof {
            assert(v@ =~= spec_all_fields());
        }
        v
    }

    /// Whether the channel map declares this column.
    pub fn included(&self, map: &ChannelMap) -> (r: bool)
        ensures
            r == spec_field_included(*self, map@),
    {
        match self {
        ChannelDataField::AnodeFrontEnergy => map.contains_channel_type(ChannelType::AnodeFront),
        ChannelDataField::AnodeFrontShort => map.contains_channel_type(ChannelType::AnodeFront),
        ChannelDataField::AnodeFrontTime => map.contains_channel_type(ChannelType::AnodeFront),
        ChannelDataField::AnodeBackEnergy => map.contains_channel_type(ChannelType::AnodeBack),
        ChannelDataField::AnodeBackShort => map.contains_channel_type(ChannelType::AnodeBack),
        ChannelDataField::AnodeBackTime => map.contains_channel_type(ChannelType::AnodeBack),
        ChannelDataField::ScintLeftEnergy => map.contains_channel_type(ChannelType::ScintLeft),
        ChannelDataField::ScintLeftShort => map.contains_channel_type(ChannelType::ScintLeft),
        ChannelDataField::ScintLeftTime => map.contains_channel_type(ChannelType::ScintLeft),
        ChannelDataField::ScintRightEnergy => map.contains_channel_type(ChannelType::ScintRight),
        ChannelDataField::ScintRightShort => map.contains_channel_type(ChannelType::ScintRight),
        ChannelDataField::ScintRightTime => map.contains_channel_type(ChannelType::ScintRight),
        ChannelDataField::CathodeEnergy => map.contains_channel_type(ChannelType::Cathode),
        ChannelDataField::CathodeShort => map.contains_channel_type(ChannelType::Cathode),
        ChannelDataField::CathodeTime => map.contains_channel_type(ChannelType::Cathode),
        ChannelDataField::DelayFrontLeftEnergy => map.contains_channel_type(ChannelType::DelayFrontLeft),
        ChannelDataField::DelayFrontLeftShort => map.contains_channel_type(ChannelType::DelayFrontLeft),
        ChannelDataField::DelayFrontLeftTime => map.contains_channel_type(ChannelType::DelayFrontLeft),
        ChannelDataField::DelayFrontRightEnergy => map.contains_channel_type(ChannelType::DelayFrontRight),
        ChannelDataField::DelayFrontRightShort => map.contains_channel_type(ChannelType::DelayFrontRight),
        ChannelDataField::DelayFrontRightTime => map.contains_channel_type(ChannelType::DelayFrontRight),
        ChannelDataField::DelayBackLeftEnergy => map.contains_channel_type(ChannelType::DelayBackLeft),
        ChannelDataField::DelayBackLeftShort => map.contains_channel_type(ChannelType::DelayBackLeft),
        ChannelDataField::DelayBackLeftTime => map.contains_channel_type(ChannelType::DelayBackLeft),
        ChannelDataField::DelayBackRightEnergy => map.contains_channel_type(ChannelType::DelayBackRight),
        ChannelDataField::DelayBackRightShort => map.contains_channel_type(ChannelType::DelayBackRight),
        ChannelDataField::DelayBackRightTime => map.contains_channel_type(ChannelType::DelayBackRight),
        ChannelDataField::MonitorEnergy => map.contains_channel_type(ChannelType::Monitor),
        ChannelDataField::MonitorShort => map.contains_channel_type(ChannelType::Monitor),
        ChannelDataField::MonitorTime => map.contains_channel_type(ChannelType::Monitor),
        ChannelDataField::X1 => map.contains_channel_type(ChannelType::DelayFrontLeft) && map.contains_channel_type(ChannelType::DelayFrontRight) && map.contains_channel_type(ChannelType::DelayBackLeft) && map.contains_channel_type(ChannelType::DelayBackRight),
        ChannelDataField::X2 => map.contains_channel_type(ChannelType::DelayFrontLeft) && map.contains_channel_type(ChannelType::DelayFrontRight) && map.contains_channel_type(ChannelType::DelayBackLeft) && map.contains_channel_type(ChannelType::DelayBackRight),
        ChannelDataField::Xavg => map.contains_channel_type(ChannelType::DelayFrontLeft) && map.contains_channel_type(ChannelType::DelayFrontRight) && map.contains_channel_type(ChannelType::DelayBackLeft) && map.contains_channel_type(ChannelType::DelayBackRight),
        ChannelDataField::Theta => map.contains_channel_type(ChannelType::DelayFrontLeft) && map.contains_channel_type(ChannelType::DelayFrontRight) && map.contains_channel_type(ChannelType::DelayBackLeft) && map.contains_channel_type(ChannelType::DelayBackRight),
        ChannelDataField::Cebra0Energy => map.contains_channel_type(ChannelType::Cebra0),
        ChannelDataField::Cebra1Energy => map.contains_channel_type(ChannelType::Cebra1),
        ChannelDataField::Cebra2Energy => map.contains_channel_type(ChannelType::Cebra2),
        ChannelDataField::Cebra3Energy => map.contains_channel_type(ChannelType::Cebra3),
        ChannelDataField::Cebra4Energy => map.contains_channel_type(ChannelType::Cebra4),
        ChannelDataField::Cebra5Energy => map.contains_channel_type(ChannelType::Cebra5),
        ChannelDataField::Cebra6Energy => map.contains_channel_type(ChannelType::Cebra6),
        ChannelDataField::Cebra7Energy => map.contains_channel_type(ChannelType::Cebra7),
        ChannelDataField::Cebra8Energy => map.contains_channel_type(ChannelType::Cebra8),
        ChannelDataField::Cebra0Short => map.contains_channel_type(ChannelType::Cebra0),
        ChannelDataField::Cebra1Short => map.contains_channel_type(ChannelType::Cebra1),
        ChannelDataField::Cebra2Short => map.contains_channel_type(ChannelType::Cebra2),
        ChannelDataField::Cebra3Short => map.contains_channel_type(ChannelType::Cebra3),
        ChannelDataField::Cebra4Short => map.contains_channel_type(ChannelType::Cebra4),
        ChannelDataField::Cebra5Short => map.contains_channel_type(ChannelType::Cebra5),
        ChannelDataField::Cebra6Short => map.contains_channel_type(ChannelType::Cebra6),
        ChannelDataField::Cebra7Short => map.contains_channel_type(ChannelType::Cebra7),
        ChannelDataField::Cebra8Short => map.contains_channel_type(ChannelType::Cebra8),
        ChannelDataField::Cebra0Time => map.contains_channel_type(ChannelType::Cebra0),
        ChannelDataField::Cebra1Time => map.contains_channel_type(ChannelType::Cebra1),
        ChannelDataField::Cebra2Time => map.contains_channel_type(ChannelType::Cebra2),
        ChannelDataField::Cebra3Time => map.contains_channel_type(ChannelType::Cebra3),
        ChannelDataField::Cebra4Time => map.contains_channel_type(ChannelType::Cebra4),
        ChannelDataField::Cebra5Time => map.contains_channel_type(ChannelType::Cebra5),
        ChannelDataField::Cebra6Time => map.contains_channel_type(ChannelType::Cebra6),
        ChannelDataField::Cebra7Time => map.contains_channel_type(ChannelType::Cebra7),
        ChannelDataField::Cebra8Time => map.contains_channel_type(ChannelType::Cebra8),
        ChannelDataField::Cebra0RelTime => map.contains_channel_type(ChannelType::Cebra0) && map.contains_channel_type(ChannelType::ScintLeft),
        ChannelDataField::Cebra1RelTime => map.contains_channel_type(ChannelType::Cebra1) && map.contains_channel_type(ChannelType::ScintLeft),
        ChannelDataField::Cebra2RelTime => map.contains_channel_type(ChannelType::Cebra2) && map.contains_channel_type(ChannelType::ScintLeft),
        ChannelDataField::Cebra3RelTime => map.contains_channel_type(ChannelType::Cebra3) && map.contains_channel_type(ChannelType::ScintLeft),
        ChannelDataField::Cebra4RelTime => map.contains_channel_type(ChannelType::Cebra4) && map.contains_channel_type(ChannelType::ScintLeft),
        ChannelDataField::Cebra5RelTime => map.contains_channel_type(ChannelType::Cebra5) && map.contains_channel_type(ChannelType::ScintLeft),
        ChannelDataField::Cebra6RelTime => map.contains_channel_type(ChannelType::Cebra6) && map.contains_channel_type(ChannelType::ScintLeft),
        ChannelDataField::Cebra7RelTime => map.contains_channel_type(ChannelType::Cebra7) && map.contains_channel_type(ChannelType::ScintLeft),
        ChannelDataField::Cebra8RelTime => map.contains_channel_type(ChannelType::Cebra8) && map.contains_channel_type(ChannelType::ScintLeft),
        ChannelDataField::PIPS1000Energy => map.contains_channel_type(ChannelType::PIPS1000),
        ChannelDataField::PIPS500Energy => map.contains_channel_type(ChannelType::PIPS500),
        ChannelDataField::PIPS300Energy => map.contains_channel_type(ChannelType::PIPS300),
        ChannelDataField::PIPS100Energy => map.contains_channel_type(ChannelType::PIPS100),
        ChannelDataField::PIPS1000Time => map.contains_channel_type(ChannelType::PIPS1000),
        ChannelDataField::PIPS500Time => map.contains_channel_type(ChannelType::PIPS500),
        ChannelDataField::PIPS300Time => map.contains_channel_type(ChannelType::PIPS300),
        ChannelDataField::PIPS100Time => map.contains_channel_type(ChannelType::PIPS100),
        ChannelDataField::PIPS1000RelTime => map.contains_channel_type(ChannelType::PIPS1000) && map.contains_channel_type(ChannelType::ScintLeft),
        ChannelDataField::PIPS500RelTime => map.contains_channel_type(ChannelType::PIPS500) && map.contains_channel_type(ChannelType::ScintLeft),
        ChannelDataField::PIPS300RelTime => map.contains_channel_type(ChannelType::PIPS300) && map.contains_channel_type(ChannelType::ScintLeft),
        ChannelDataField::PIPS100RelTime => map.contains_channel_type(ChannelType::PIPS100) && map.contains_channel_type(ChannelType::ScintLeft),
        ChannelDataField::PIPS1000RelTimeToPIPS500 => map.contains_channel_type(ChannelType::PIPS1000) && map.contains_channel_type(ChannelType::PIPS500),
        ChannelDataField::PIPS1000RelTimeToPIPS300 => map.contains_channel_type(ChannelType::PIPS1000) && map.contains_channel_type(ChannelType::PIPS300),
        ChannelDataField::CATRINA0Energy => map.contains_channel_type(ChannelType::CATRINA0),
        ChannelDataField::CATRINA1Energy => map.contains_channel_type(ChannelType::CATRINA1),
        ChannelDataField::CATRINA2Energy => map.contains_channel_type(ChannelType::CATRINA2),
        ChannelDataField::CATRINA3Energy => map.contains_channel_type(ChannelType::CATRINA3),
        ChannelDataField::CATRINA4Energy => map.contains_channel_type(ChannelType::CATRINA4),
        ChannelDataField::CATRINA5Energy => map.contains_channel_type(ChannelType::CATRINA5),
        ChannelDataField::CATRINA6Energy => map.contains_channel_type(ChannelType::CATRINA6),
        ChannelDataField::CATRINA7Energy => map.contains_channel_type(ChannelType::CATRINA7),
        ChannelDataField::CATRINA8Energy => map.contains_channel_type(ChannelType::CATRINA8),
        ChannelDataField::CATRINA9Energy => map.contains_channel_type(ChannelType::CATRINA9),
        ChannelDataField::CATRINA10Energy => map.contains_channel_type(ChannelType::CATRINA10),
        ChannelDataField::CATRINA11Energy => map.contains_channel_type(ChannelType::CATRINA11),
        ChannelDataField::CATRINA12Energy => map.contains_channel_type(ChannelType::CATRINA12),
        ChannelDataField::CATRINA13Energy => map.contains_channel_type(ChannelType::CATRINA13),
        ChannelDataField::CATRINA14Energy => map.contains_channel_type(ChannelType::CATRINA14),
        ChannelDataField::CATRINA15Energy => map.contains_channel_type(ChannelType::CATRINA15),
        ChannelDataField::CATRINA0Short => map.contains_channel_type(ChannelType::CATRINA0),
        ChannelDataField::CATRINA1Short => map.contains_channel_type(ChannelType::CATRINA1),
        ChannelDataField::CATRINA2Short => map.contains_channel_type(ChannelType::CATRINA2),
        ChannelDataField::CATRINA3Short => map.contains_channel_type(ChannelType::CATRINA3),
        ChannelDataField::CATRINA4Short => map.contains_channel_type(ChannelType::CATRINA4),
        ChannelDataField::CATRINA5Short => map.contains_channel_type(ChannelType::CATRINA5),
        ChannelDataField::CATRINA6Short => map.contains_channel_type(ChannelType::CATRINA6),
        ChannelDataField::CATRINA7Short => map.contains_channel_type(ChannelType::CATRINA7),
        ChannelDataField::CATRINA8Short => map.contains_channel_type(ChannelType::CATRINA8),
        ChannelDataField::CATRINA9Short => map.contains_channel_type(ChannelType::CATRINA9),
        ChannelDataField::CATRINA10Short => map.contains_channel_type(ChannelType::CATRINA10),
        ChannelDataField::CATRINA11Short => map.contains_channel_type(ChannelType::CATRINA11),
        ChannelDataField::CATRINA12Short => map.contains_channel_type(ChannelType::CATRINA12),
        ChannelDataField::CATRINA13Short => map.contains_channel_type(ChannelType::CATRINA13),
        ChannelDataField::CATRINA14Short => map.contains_channel_type(ChannelType::CATRINA14),
        ChannelDataField::CATRINA15Short => map.contains_channel_type(ChannelType::CATRINA15),
        ChannelDataField::CATRINA0Time => map.contains_channel_type(ChannelType::CATRINA0),
        ChannelDataField::CATRINA1Time => map.contains_channel_type(ChannelType::CATRINA1),
        ChannelDataField::CATRINA2Time => map.contains_channel_type(ChannelType::CATRINA2),
        ChannelDataField::CATRINA3Time => map.contains_channel_type(ChannelType::CATRINA3),
        ChannelDataField::CATRINA4Time => map.contains_channel_type(ChannelType::CATRINA4),
        ChannelDataField::CATRINA5Time => map.contains_channel_type(ChannelType::CATRINA5),
        ChannelDataField::CATRINA6Time => map.contains_channel_type(ChannelType::CATRINA6),
        ChannelDataField::CATRINA7Time => map.contains_channel_type(ChannelType::CATRINA7),
        ChannelDataField::CATRINA8Time => map.contains_channel_type(ChannelType::CATRINA8),
        ChannelDataField::CATRINA9Time => map.contains_channel_type(ChannelType::CATRINA9),
        ChannelDataField::CATRINA10Time => map.contains_channel_type(ChannelType::CATRINA10),
        ChannelDataField::CATRINA11Time => map.contains_channel_type(ChannelType::CATRINA11),
        ChannelDataField::CATRINA12Time => map.contains_channel_type(ChannelType::CATRINA12),
        ChannelDataField::CATRINA13Time => map.contains_channel_type(ChannelType::CATRINA13),
        ChannelDataField::CATRINA14Time => map.contains_channel_type(ChannelType::CATRINA14),
        ChannelDataField::CATRINA15Time => map.contains_channel_type(ChannelType::CATRINA15),
        ChannelDataField::CATRINA0PSD => map.contains_channel_type(ChannelType::CATRINA0),
        ChannelDataField::CATRINA1PSD => map.contains_channel_type(ChannelType::CATRINA1),
        ChannelDataField::CATRINA2PSD => map.contains_channel_type(ChannelType::CATRINA2),
        ChannelDataField::CATRINA3PSD => map.contains_channel_type(ChannelType::CATRINA3),
        ChannelDataField::CATRINA4PSD => map.contains_channel_type(ChannelType::CATRINA4),
        ChannelDataField::CATRINA5PSD => map.contains_channel_type(ChannelType::CATRINA5),
        ChannelDataField::CATRINA6PSD => map.contains_channel_type(ChannelType::CATRINA6),
        ChannelDataField::CATRINA7PSD => map.contains_channel_type(ChannelType::CATRINA7),
        ChannelDataField::CATRINA8PSD => map.contains_channel_type(ChannelType::CATRINA8),
        ChannelDataField::CATRINA9PSD => map.contains_channel_type(ChannelType::CATRINA9),
        ChannelDataField::CATRINA10PSD => map.contains_channel_type(ChannelType::CATRINA10),
        ChannelDataField::CATRINA11PSD => map.contains_channel_type(ChannelType::CATRINA11),
        ChannelDataField::CATRINA12PSD => map.contains_channel_type(ChannelType::CATRINA12),
        ChannelDataField::CATRINA13PSD => map.contains_channel_type(ChannelType::CATRINA13),
        ChannelDataField::CATRINA14PSD => map.contains_channel_type(ChannelType::CATRINA14),
        ChannelDataField::CATRINA15PSD => map.contains_channel_type(ChannelType::CATRINA15),
        ChannelDataField::LeftStrip0Energy => map.contains_channel_type(ChannelType::LeftStrip0),
        ChannelDataField::LeftStrip1Energy => map.contains_channel_type(ChannelType::LeftStrip1),
        ChannelDataField::LeftStrip2Energy => map.contains_channel_type(ChannelType::LeftStrip2),
        ChannelDataField::LeftStrip3Energy => map.contains_channel_type(ChannelType::LeftStrip3),
        ChannelDataField::LeftStrip4Energy => map.contains_channel_type(ChannelType::LeftStrip4),
        ChannelDataField::LeftStrip5Energy => map.contains_channel_type(ChannelType::LeftStrip5),
        ChannelDataField::LeftStrip6Energy => map.contains_channel_type(ChannelType::LeftStrip6),
        ChannelDataField::LeftStrip7Energy => map.contains_channel_type(ChannelType::LeftStrip7),
        ChannelDataField::LeftStrip8Energy => map.contains_channel_type(ChannelType::LeftStrip8),
        ChannelDataField::LeftStrip9Energy => map.contains_channel_type(ChannelType::LeftStrip9),
        ChannelDataField::LeftStrip10Energy => map.contains_channel_type(ChannelType::LeftStrip10),
        ChannelDataField::LeftStrip11Energy => map.contains_channel_type(ChannelType::LeftStrip11),
        ChannelDataField::LeftStrip12Energy => map.contains_channel_type(ChannelType::LeftStrip12),
        ChannelDataField::LeftStrip13Energy => map.contains_channel_type(ChannelType::LeftStrip13),
        ChannelDataField::LeftStrip14Energy => map.contains_channel_type(ChannelType::LeftStrip14),
        ChannelDataField::LeftStrip15Energy => map.contains_channel_type(ChannelType::LeftStrip15),
        ChannelDataField::LeftStrip0Time => map.contains_channel_type(ChannelType::LeftStrip0),
        ChannelDataField::LeftStrip1Time => map.contains_channel_type(ChannelType::LeftStrip1),
        ChannelDataField::LeftStrip2Time => map.contains_channel_type(ChannelType::LeftStrip2),
        ChannelDataField::LeftStrip3Time => map.contains_channel_type(ChannelType::LeftStrip3),
        ChannelDataField::LeftStrip4Time => map.contains_channel_type(ChannelType::LeftStrip4),
        ChannelDataField::LeftStrip5Time => map.contains_channel_type(ChannelType::LeftStrip5),
        ChannelDataField::LeftStrip6Time => map.contains_channel_type(ChannelType::LeftStrip6),
        ChannelDataField::LeftStrip7Time => map.contains_channel_type(ChannelType::LeftStrip7),
        ChannelDataField::LeftStrip8Time => map.contains_channel_type(ChannelType::LeftStrip8),
        ChannelDataField::LeftStrip9Time => map.contains_channel_type(ChannelType::LeftStrip9),
        ChannelDataField::LeftStrip10Time => map.contains_channel_type(ChannelType::LeftStrip10),
        ChannelDataField::LeftStrip11Time => map.contains_channel_type(ChannelType::LeftStrip11),
        ChannelDataField::LeftStrip12Time => map.contains_channel_type(ChannelType::LeftStrip12),
        ChannelDataField::LeftStrip13Time => map.contains_channel_type(ChannelType::LeftStrip13),
        ChannelDataField::LeftStrip14Time => map.contains_channel_type(ChannelType::LeftStrip14),
        ChannelDataField::LeftStrip15Time => map.contains_channel_type(ChannelType::LeftStrip15),
        ChannelDataField::RightStrip0Energy => map.contains_channel_type(ChannelType::RightStrip0),
        ChannelDataField::RightStrip1Energy => map.contains_channel_type(ChannelType::RightStrip1),
        ChannelDataField::RightStrip2Energy => map.contains_channel_type(ChannelType::RightStrip2),
        ChannelDataField::RightStrip3Energy => map.contains_channel_type(ChannelType::RightStrip3),
        ChannelDataField::RightStrip4Energy => map.contains_channel_type(ChannelType::RightStrip4),
        ChannelDataField::RightStrip5Energy => map.contains_channel_type(ChannelType::RightStrip5),
        ChannelDataField::RightStrip6Energy => map.contains_channel_type(ChannelType::RightStrip6),
        ChannelDataField::RightStrip7Energy => map.contains_channel_type(ChannelType::RightStrip7),
        ChannelDataField::RightStrip8Energy => map.contains_channel_type(ChannelType::RightStrip8),
        ChannelDataField::RightStrip9Energy => map.contains_channel_type(ChannelType::RightStrip9),
        ChannelDataField::RightStrip10Energy => map.contains_channel_type(ChannelType::RightStrip10),
        ChannelDataField::RightStrip11Energy => map.contains_channel_type(ChannelType::RightStrip11),
        ChannelDataField::RightStrip12Energy => map.contains_channel_type(ChannelType::RightStrip12),
        ChannelDataField::RightStrip13Energy => map.contains_channel_type(ChannelType::RightStrip13),
        ChannelDataField::RightStrip14Energy => map.contains_channel_type(ChannelType::RightStrip14),
        ChannelDataField::RightStrip15Energy => map.contains_channel_type(ChannelType::RightStrip15),
        ChannelDataField::RightStrip0Time => map.contains_channel_type(ChannelType::RightStrip0),
        ChannelDataField::RightStrip1Time => map.contains_channel_type(ChannelType::RightStrip1),
        ChannelDataField::RightStrip2Time => map.contains_channel_type(ChannelType::RightStrip2),
        ChannelDataField::RightStrip3Time => map.contains_channel_type(ChannelType::RightStrip3),
        ChannelDataField::RightStrip4Time => map.contains_channel_type(ChannelType::RightStrip4),
        ChannelDataField::RightStrip5Time => map.contains_channel_type(ChannelType::RightStrip5),
        ChannelDataField::RightStrip6Time => map.contains_channel_type(ChannelType::RightStrip6),
        ChannelDataField::RightStrip7Time => map.contains_channel_type(ChannelType::RightStrip7),
        ChannelDataField::RightStrip8Time => map.contains_channel_type(ChannelType::RightStrip8),
        ChannelDataField::RightStrip9Time => map.contains_channel_type(ChannelType::RightStrip9),
        ChannelDataField::RightStrip10Time => map.contains_channel_type(ChannelType::RightStrip10),
        ChannelDataField::RightStrip11Time => map.contains_channel_type(ChannelType::RightStrip11),
        ChannelDataField::RightStrip12Time => map.contains_channel_type(ChannelType::RightStrip12),
        ChannelDataField::RightStrip13Time => map.contains_channel_type(ChannelType::RightStrip13),
        ChannelDataField::RightStrip14Time => map.contains_channel_type(ChannelType::RightStrip14),
        ChannelDataField::RightStrip15Time => map.contains_channel_type(ChannelType::RightStrip15),
        ChannelDataField::Strip0Energy => map.contains_channel_type(ChannelType::Strip0),
        ChannelDataField::Strip17Energy => map.contains_channel_type(ChannelType::Strip17),
        ChannelDataField::Strip0Time => map.contains_channel_type(ChannelType::Strip0),
        ChannelDataField::Strip17Time => map.contains_channel_type(ChannelType::Strip17),
        ChannelDataField::RF => map.contains_channel_type(ChannelType::RF),
        }
    }

    /// The filtered schema: only the columns the channel map declares.
    pub fn get_filtered_field_vec(map: &ChannelMap) -> (r: Vec<ChannelDataField>)
        ensures
            r@ == spec_filtered_fields(map@),
    {
        let all = ChannelDataField::get_field_vec();
        let mut v: Vec<ChannelDataField> = Vec::new();
        let mut i: usize = 0;
        proof {
            assert(all@.skip(0) =~= all@);
            assert(Seq::<ChannelDataField>::empty() + spec_filter_fields(all@, map@)
                =~= spec_filter_fields(all@, map@));
        }
        while i < all.len()
            invariant
                0 <= i <= all@.len(),
                all@ == spec_all_fields(),
                spec_filtered_fields(map@) == v@ + spec_filter_fields(all@.skip(i as int), map@),
            decreases all@.len() - i,
        {
            let ghost rest = all@.skip(i as int);
            proof {
                assert(rest[0] == all@[i as int]);
                assert(rest.skip(1) =~= all@.skip(i + 1));
            }
            let f = all[i];
            let ghost prev = v@;
            if f.included(map) {
                v.push(f);
                proof {
                    assert(prev + (seq![rest[0]] + spec_filter_fields(rest.skip(1), map@))
                        =~= v@ + spec_filter_fields(rest.skip(1), map@));
                }
            } else {
                proof {
                    assert(Seq::<ChannelDataField>::empty() + spec_filter_fields(rest.skip(1), map@)
                        =~= spec_filter_fields(rest.skip(1), map@));
                }
            }
            i = i + 1;
        }
        proof {
            assert(all@.skip(i as int).len() == 0);
            assert(v@ + Seq::<ChannelDataField>::empty() =~= v@);
        }
        v
    }
}

/// The per-run column store: the filtered schema and one row of cells per
/// event, all rows the same width.
#[derive(Clone, Debug)]
pub struct ChannelData {
    fields: Vec<ChannelDataField>,
    row_data: Vec<Vec<CellValue>>,
}

impl Default for ChannelData {
    /// An empty store over the full, unfiltered schema.
    fn default() -> (r: ChannelData)
        ensures
            r.wf(),
            r.spec_fields() == spec_all_fields(),
            r.spec_row_data().len() == 0,
    {
        ChannelData { fields: ChannelDataField::get_field_vec(), row_data: Vec::new() }
    }
}

impl ChannelData {
    /// The filtered schema these rows follow.
    pub closed spec fn spec_fields(&self) -> Seq<ChannelDataField> {
        self.fields@
    }

    /// The rows appended so far, one per event.
    pub closed spec fn spec_row_data(&self) -> Seq<Seq<CellValue>> {
        self.row_data@.map_values(|r: Vec<CellValue>| r@)
    }

    /// Every row has one cell per schema column.
    pub open spec fn wf(&self) -> bool {
        forall|j: int|
            0 <= j < self.spec_row_data().len() ==> (#[trigger] self.spec_row_data()[j]).len()
                == self.spec_fields().len()
    }

    /// An empty store over the filtered schema of `map`.
    pub fn new(map: &ChannelMap) -> (r: ChannelData)
        ensures
            r.wf(),
            r.spec_fields() == spec_filtered_fields(map@),
            r.spec_row_data().len() == 0,
    {
        let fields = ChannelDataField::get_filtered_field_vec(map);
        ChannelData { fields, row_data: Vec::new() }
    }

    /// The number of committed rows: one per event.
    pub fn rows(&self) -> (r: usize)
        ensures
            r == self.spec_row_data().len(),
    {
        self.row_data.len()
    }

    /// The schema columns, in order.
    pub fn fields(&self) -> (r: &Vec<ChannelDataField>)
        ensures
            r@ == self.spec_fields(),
    {
        &self.fields
    }

    /// Projects one event and commits its row: every filtered column
    /// receives exactly one cell, and a column no hit touched stays
    /// `Unset`.
    pub fn append_event(&mut self, event: &Vec<Hit>, map: &ChannelMap, has_weights: bool)
        ensures
            final(self).spec_fields() == old(self).spec_fields(),
            final(self).spec_row_data() == old(self).spec_row_data().push(
                spec_event_row(old(self).spec_fields(), event@, map@, has_weights),
            ),
            old(self).wf() ==> final(self).wf(),
    {
        let mut row: Vec<CellValue> = Vec::new();
        let mut i: usize = 0;
        while i < self.fields.len()
            invariant
                0 <= i <= self.fields@.len(),
                row@.len() == i,
                forall|k: int|
                    0 <= k < i ==> row@[k] == spec_cell_value(
                        #[trigger] self.fields@[k],
                        event@,
                        map@,
                        has_weights,
                    ),
            decreases self.fields@.len() - i,
        {
            let c = cell_value(&self.fields[i], event, map, has_weights);
            row.push(c);
            i = i + 1;
        }
        proof {
            assert(row@ =~= spec_event_row(self.spec_fields(), event@, map@, has_weights));
        }
        let ghost prev = self.row_data@;
        self.row_data.push(row);
        proof {
            assert(self.spec_row_data() =~= prev.map_values(|r: Vec<CellValue>| r@).push(
                spec_event_row(self.spec_fields(), event@, map@, has_weights),
            ));
        }
    }

    /// Hands the store out column by column, in schema order: the shape the
    /// columnar writer consumes. Column `i` holds cell `i` of every row.
    pub fn convert_to_columns(self) -> (r: Vec<(ChannelDataField, Vec<CellValue>)>)
        requires
            self.wf(),
        ensures
            r@.len() == self.spec_fields().len(),
            forall|i: int| 0 <= i < r@.len() ==> (#[trigger] r@[i]).0 == self.spec_fields()[i],
            forall|i: int|
                0 <= i < r@.len() ==> (#[trigger] r@[i]).1@.len() == self.spec_row_data().len(),
            forall|i: int, j: int|
                0 <= i < r@.len() && 0 <= j < self.spec_row_data().len() ==> #[trigger] r@[i].1@[j]
                    == self.spec_row_data()[j][i],
    {
        let mut r: Vec<(ChannelDataField, Vec<CellValue>)> = Vec::new();
        let mut i: usize = 0;
        while i < self.fields.len()
            invariant
                0 <= i <= self.fields@.len(),
                self.wf(),
                r@.len() == i,
                forall|t: int| 0 <= t < i ==> (#[trigger] r@[t]).0 == self.spec_fields()[t],
                forall|t: int|
                    0 <= t < i ==> (#[trigger] r@[t]).1@.len() == self.spec_row_data().len(),
                forall|t: int, j: int|
                    0 <= t < i && 0 <= j < self.spec_row_data().len() ==> #[trigger] r@[t].1@[j]
                        == self.spec_row_data()[j][t],
            decreases self.fields@.len() - i,
        {
            let mut col: Vec<CellValue> = Vec::new();
            let mut j: usize = 0;
            while j < self.row_data.len()
                invariant
                    0 <= j <= self.row_data@.len(),
                    0 <= i < self.fields@.len(),
                    self.wf(),
                    col@.len() == j,
                    forall|t: int| 0 <= t < j ==> col@[t] == self.spec_row_data()[t][i as int],
                decreases self.row_data@.len() - j,
            {
                proof {
                    assert(self.spec_row_data()[j as int].len() == self.spec_fields().len());
                }
                col.push(self.row_data[j][i]);
                j = j + 1;
            }
            r.push((self.fields[i], col));
            i = i + 1;
        }
        r
    }
}

/// The full row one event commits: cell `i` belongs to column `fields[i]`.
pub open spec fn spec_event_row(
    fields: Seq<ChannelDataField>,
    event: Seq<Hit>,
    m: Seq<(u32, RoleData)>,
    has_weights: bool,
) -> Seq<CellValue> {
    Seq::new(fields.len(), |i: int| spec_cell_value(fields[i], event, m, has_weights))
}

/// Every filtered column receives exactly one cell per event, and a column
/// none of the event's hits feeds carries `Unset` (the invalid sentinel).
pub proof fn lemma_event_row_covers_schema(
    fields: Seq<ChannelDataField>,
    event: Seq<Hit>,
    m: Seq<(u32, RoleData)>,
    has_weights: bool,
)
    ensures
        spec_event_row(fields, event, m, has_weights).len() == fields.len(),
        forall|i: int|
            0 <= i < fields.len() ==> spec_event_row(fields, event, m, has_weights)[i]
                == spec_cell_value(#[trigger] fields[i], event, m, has_weights),
        forall|i: int|
            0 <= i < fields.len() ==> spec_cell_value(#[trigger] fields[i], Seq::empty(), m, false)
                == CellValue::Unset,
{
}

} // verus!
