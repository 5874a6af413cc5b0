//! Which sprite-sheet components each character's animations are made of,
//! which component a fighter shows on a given tick, and which way a
//! sprite is mirrored.

use vstd::prelude::*;
use crate::fighter::Fighter;
use crate::moves::State;
use crate::roster::Character;

verus! {

/// The sprite-sheet components of `character`'s animation for `state`, in
/// playback order.
pub open spec fn frames_table(character: Character, state: State) -> Seq<u16> {
    match character {
        Character::DeeJay => match state {
            State::Idle => seq![10, 11, 12, 13, 14, 15, 16, 17, 18, 19],
            State::Walk => seq![25, 26, 27, 28, 29],
            State::WalkBackward => seq![30, 31, 32, 33, 34],
            State::Crouch => seq![20, 21, 22],
            State::Jump | State::JumpForward | State::JumpBackward => seq![44, 45, 42, 46, 43, 41],
            State::Block => seq![47, 48],
            State::CrouchBlock => seq![49, 50, 51, 52],
            State::Punch => seq![54, 57, 55],
            State::PunchMedium => seq![56, 58, 60],
            State::PunchHeavy => seq![59, 53],
            State::ForwardPunch => seq![63, 64, 65, 66, 61, 62, 67],
            State::BackPunch => seq![58, 60, 59, 53],
            State::Kick => seq![72, 68, 70],
            State::KickMedium => seq![69, 71, 73],
            State::KickHeavy => seq![74, 75, 76, 77, 79, 78],
            State::ForwardKick => seq![69, 71, 73],
            State::BackKick => seq![74, 75, 76, 77, 79, 78],
            State::CrouchPunch => seq![114, 110, 109, 111, 113, 116, 112, 115],
            State::CrouchForwardPunch => seq![137, 136, 134, 135],
            State::CrouchBackPunch => seq![150, 158, 159, 153, 156, 157, 152, 151, 154, 155],
            State::CrouchKick => seq![92, 88, 89, 87, 86, 85, 90, 91, 84],
            State::CrouchForwardKick => seq![99, 100, 96, 101, 103, 102, 95, 94, 93, 97, 98],
            State::CrouchBackKick => seq![106, 107, 104, 108, 105],
            State::AirPunch | State::AirForwardPunch | State::AirBackPunch => seq![197, 194],
            State::AirKick | State::AirForwardKick | State::AirBackKick => seq![195, 196, 193],
            State::Throw => seq![151, 152, 153, 154, 155, 156, 157, 158, 159],
            State::Special(0) => seq![216, 217, 218, 219, 220, 221, 222, 223, 224],
            State::Special(1) => seq![
                161, 162, 163, 164, 165, 166, 167, 168, 169, 170, 171, 172, 173, 174,
            ],
            State::Special(_) => seq![
                175, 176, 177, 178, 179, 180, 181, 182, 183, 184, 185, 186, 187, 188, 189, 190,
            ],
            State::Super => seq![
                161, 162, 163, 164, 165, 166, 167, 168, 169, 170, 171, 172, 173, 174, 175, 176,
                177, 178, 179, 180, 181, 182, 183, 184, 185, 186, 187, 188, 189, 190,
            ],
            State::Hit => seq![
                227, 228, 229, 230, 231, 232, 233, 234, 235, 236, 237, 238, 239, 240, 241, 242, 243,
            ],
            State::KnockedOut => seq![
                244, 245, 246, 247, 248, 249, 250, 251, 252, 253, 254, 255, 256, 257, 258, 259,
                260, 261, 262, 263,
            ],
            State::Victory => seq![198, 199, 200, 201, 202, 203, 204, 205, 206, 207, 208],
        },
        Character::Rose => match state {
            State::Idle => seq![11, 12, 13, 14, 0, 1, 2, 3, 4, 5, 4, 3, 2, 1],
            State::Walk => seq![6, 7, 8, 9, 10, 11, 12, 13, 14],
            State::WalkBackward => seq![53, 54, 55, 46, 47, 48, 49, 50, 51, 56],
            State::Crouch => seq![57, 58, 59, 60],
            State::Jump | State::JumpForward | State::JumpBackward => {
                seq![73, 70, 68, 65, 66, 62, 61, 63, 64, 67, 69, 72, 71]
            }
            State::Block => seq![309, 310, 311, 312],
            State::CrouchBlock => seq![57, 58, 59, 60],
            State::Punch => seq![83, 84, 78, 79],
            State::PunchMedium => seq![97, 86, 98, 87, 88, 89, 90, 91],
            State::PunchHeavy => seq![104, 105, 106, 107, 108, 109],
            State::ForwardPunch => seq![97, 86, 98, 87, 88, 89, 90, 91],
            State::BackPunch => seq![104, 105, 106, 107, 108, 109],
            State::Kick => seq![80, 74, 75, 76, 81, 77, 85, 82],
            State::KickMedium => seq![92, 93, 94, 95, 96],
            State::KickHeavy => seq![99, 100, 101, 102, 103],
            State::ForwardKick => seq![92, 93, 94, 95, 96],
            State::BackKick => seq![99, 100, 101, 102, 103],
            State::CrouchPunch => seq![113, 114, 115, 116, 117, 118, 119],
            State::CrouchForwardPunch => seq![125, 126, 127, 128],
            State::CrouchBackPunch => seq![129, 130, 131],
            State::CrouchKick => seq![124, 110, 111, 112],
            State::CrouchForwardKick => seq![120, 121, 122, 123],
            State::CrouchBackKick => seq![132, 133, 134],
            State::AirPunch => seq![143, 144, 148, 145, 141, 142, 137, 138, 139, 140],
            State::AirForwardPunch => seq![154, 155, 156, 157, 158, 159, 160],
            State::AirBackPunch => seq![170, 171, 172, 173, 174],
            State::AirKick => seq![149, 150, 152, 151, 153],
            State::AirForwardKick => seq![161, 162, 163, 164, 165, 166, 167, 168, 169],
            State::AirBackKick => seq![175, 176, 177, 178, 179],
            State::Throw => seq![204, 205, 206, 207, 208, 209, 210, 211],
            State::Special(0) => seq![233, 234, 235, 236, 237, 238, 239, 240, 241],
            State::Special(1) => seq![125, 126, 127, 128, 135],
            State::Special(_) => seq![220, 221, 222, 223, 224, 225, 232, 233],
            State::Super => seq![
                242, 243, 244, 245, 246, 247, 248, 249, 252, 253, 254, 255, 256, 257, 258, 259,
                260, 261, 262, 263, 264, 265, 266, 267, 268,
            ],
            State::Hit => seq![277, 278, 279, 280, 281, 282, 283, 284],
            State::KnockedOut => seq![286, 287, 288, 289, 290, 291, 292, 293, 294, 295],
            State::Victory => seq![269, 270, 271, 272, 273, 274, 275, 276],
        },
        Character::FeiLong => match state {
            State::Idle => seq![0, 5, 1, 2, 3, 4, 3, 2, 1, 5],
            State::Walk => seq![38, 44, 45, 39, 40, 41, 42, 43],
            State::WalkBackward => seq![51, 52, 53, 46, 47, 48, 49, 50],
            State::Crouch => seq![35, 36, 37],
            State::Jump | State::JumpForward | State::JumpBackward => {
                seq![59, 66, 63, 67, 60, 61, 64, 62, 65]
            }
            State::Block => seq![29, 30, 31],
            State::CrouchBlock => seq![32, 33, 34],
            State::Punch => seq![84, 76],
            State::PunchMedium => seq![77, 78, 79, 80, 74],
            State::PunchHeavy => seq![81, 82, 83, 75],
            State::ForwardPunch => seq![85, 94, 86, 87, 88, 89, 90, 91, 92, 93],
            State::BackPunch => seq![228, 229, 230, 226, 227, 231, 232, 233],
            State::Kick => seq![110, 106, 100, 107],
            State::KickMedium => seq![108, 109, 101, 102, 103, 104, 105],
            State::KickHeavy => seq![118, 119, 120, 121, 111, 112, 113, 114, 115, 116, 117],
            State::ForwardKick => seq![118, 119, 120, 121, 111, 112, 113, 114, 115, 116, 117],
            State::BackKick => seq![122, 123, 124, 125, 126, 127, 131, 133, 128, 132, 129, 130],
            State::CrouchPunch => seq![170, 164, 171, 172, 174, 165, 166, 167, 168, 173, 169, 163],
            State::CrouchForwardPunch | State::CrouchBackPunch => {
                seq![170, 164, 171, 172, 174, 165, 166, 167, 168, 173, 169, 163]
            }
            State::CrouchKick => seq![140, 141, 134, 135, 142, 143, 136, 137, 138, 139],
            State::CrouchForwardKick => seq![145, 146, 147, 148, 144, 149, 150],
            State::CrouchBackKick => seq![154, 155, 156, 151, 152, 153, 157, 158, 159, 160, 161, 162],
            State::AirPunch => seq![190, 185, 186, 187, 191, 195, 192, 193, 188, 194, 189, 196],
            State::AirForwardPunch => seq![208, 212, 215, 209, 210, 213, 214, 211],
            State::AirBackPunch => seq![190, 185, 186, 187, 191, 195, 192, 193, 188, 194, 189, 196],
            State::AirKick => seq![202, 198, 203, 204, 199, 200, 205, 206, 207, 201, 197],
            State::AirForwardKick => seq![216, 217, 218, 223, 224, 219, 220, 221, 225, 222],
            State::AirBackKick => seq![271, 272, 273],
            State::Throw => seq![208, 212, 215, 209, 210, 213, 214, 211],
            State::Special(0) => seq![217, 218, 223, 224, 216, 219, 220, 221, 225, 222],
            State::Special(1) => seq![235, 236, 237, 238, 239, 240, 241, 244, 242, 243, 234, 245],
            State::Special(_) => seq![
                246, 258, 247, 259, 248, 256, 249, 257, 252, 253, 254, 255, 250, 251,
            ],
            State::Super => seq![
                230, 231, 232, 233, 234, 235, 236, 237, 238, 239, 240, 241, 242, 243, 244, 245,
                246, 247, 248, 249, 250, 251, 252, 253, 254, 255, 256, 257, 258, 259, 260, 261,
                262, 263, 264, 265, 266, 267, 268, 269, 273, 274, 275, 276, 277, 278, 279,
            ],
            State::Hit => seq![
                288, 277, 278, 289, 279, 280, 281, 290, 282, 283, 284, 285, 286, 287,
            ],
            State::KnockedOut => seq![311, 313, 314, 317, 319, 320, 321, 315, 318, 316, 312],
            State::Victory => seq![6, 7, 8, 9, 10, 11, 12, 13, 14, 15, 16, 17],
        },
        Character::Cammy => match state {
            State::Idle => seq![37, 38, 33, 34, 35, 36, 35, 34, 33, 38],
            State::Walk => seq![39, 40, 45, 46, 47, 48, 41, 42, 43, 44],
            State::WalkBackward => seq![53, 54, 55, 56, 57, 49, 50, 51, 58, 52],
            State::Crouch => seq![60, 61],
            State::Jump => seq![68, 66, 62, 63, 64, 65, 67],
            State::JumpForward => seq![74, 72, 69, 70, 71, 73, 75],
            State::JumpBackward => seq![80, 78, 76, 77, 79, 81],
            State::Block => seq![82, 83],
            State::CrouchBlock => seq![84, 85],
            State::Punch => seq![86, 87],
            State::PunchMedium => seq![88, 89],
            State::PunchHeavy => seq![90, 91, 93, 94, 95, 92],
            State::ForwardPunch => seq![97, 98, 102, 96, 99, 100, 101],
            State::BackPunch => seq![93, 94, 95, 92],
            State::Kick => seq![107, 108, 109],
            State::KickMedium => seq![110, 103, 104, 105],
            State::KickHeavy => seq![111, 106, 112, 113, 114, 115],
            State::ForwardKick => seq![
                118, 119, 120, 121, 122, 123, 117, 125, 127, 128, 126, 116, 124, 129,
            ],
            State::BackKick => seq![111, 106, 112, 113, 114, 115],
            State::CrouchPunch => seq![135, 136, 139, 140],
            State::CrouchForwardPunch => seq![137, 138],
            State::CrouchBackPunch => seq![132, 130, 131, 133, 134],
            State::CrouchKick => seq![149, 150, 151, 152],
            State::CrouchForwardKick => seq![143, 141, 144],
            State::CrouchBackKick => seq![145, 146, 147, 142, 148],
            State::AirPunch | State::AirForwardPunch | State::AirBackPunch => {
                seq![158, 159, 153, 154, 155, 156, 157, 160]
            }
            State::AirKick | State::AirForwardKick | State::AirBackKick => {
                seq![165, 166, 161, 162, 163, 164, 167, 168]
            }
            State::Throw => seq![200, 202, 201, 203, 204, 206, 205, 207, 208, 210, 211, 209],
            State::Special(0) => seq![169, 170, 172, 173, 174, 175, 171],
            State::Special(1) => seq![177, 176, 178, 179, 180, 181, 182, 183],
            State::Special(_) => seq![
                189, 190, 185, 186, 184, 187, 188, 192, 193, 194, 191, 195, 196,
            ],
            State::Super => seq![
                170, 171, 172, 173, 174, 175, 176, 177, 178, 179, 180, 181, 182, 183, 184, 185,
                186, 187, 188, 189, 190, 191, 192, 193, 194, 195, 196, 197, 198, 199,
            ],
            State::Hit => seq![
                226, 231, 227, 232, 233, 228, 224, 234, 225, 229, 230, 235, 237, 236,
            ],
            State::KnockedOut => seq![
                253, 251, 249, 245, 250, 252, 246, 247, 248, 254, 257, 255, 256, 258, 260, 259,
            ],
            State::Victory => seq![
                261, 262, 263, 264, 265, 266, 267, 268, 273, 274, 269, 270, 271, 272,
            ],
        },
    }
}

/// The sprite-sheet components of `character`'s animation for `state`, in
/// playback order.
pub fn animation_frames(character: Character, state: State) -> (frames: Vec<u16>)
    ensures
        frames@ == frames_table(character, state),
{
    match character {
        Character::DeeJay => match state {
            State::Idle => vec![10, 11, 12, 13, 14, 15, 16, 17, 18, 19],
            State::Walk => vec![25, 26, 27, 28, 29],
            State::WalkBackward => vec![30, 31, 32, 33, 34],
            State::Crouch => vec![20, 21, 22],
            // Row 9 must stay in its authored order.
            State::Jump | State::JumpForward | State::JumpBackward => vec![44, 45, 42, 46, 43, 41],
            State::Block => vec![47, 48],
            State::CrouchBlock => vec![49, 50, 51, 52],
            State::Punch => vec![54, 57, 55],
            State::PunchMedium => vec![56, 58, 60],
            State::PunchHeavy => vec![59, 53],
            State::ForwardPunch => vec![63, 64, 65, 66, 61, 62, 67],
            State::BackPunch => vec![58, 60, 59, 53],
            State::Kick => vec![72, 68, 70],
            State::KickMedium => vec![69, 71, 73],
            State::KickHeavy => vec![74, 75, 76, 77, 79, 78],
            State::ForwardKick => vec![69, 71, 73],
            State::BackKick => vec![74, 75, 76, 77, 79, 78],
            State::CrouchPunch => vec![114, 110, 109, 111, 113, 116, 112, 115],
            State::CrouchForwardPunch => vec![137, 136, 134, 135],
            State::CrouchBackPunch => vec![150, 158, 159, 153, 156, 157, 152, 151, 154, 155],
            State::CrouchKick => vec![92, 88, 89, 87, 86, 85, 90, 91, 84],
            State::CrouchForwardKick => vec![99, 100, 96, 101, 103, 102, 95, 94, 93, 97, 98],
            State::CrouchBackKick => vec![106, 107, 104, 108, 105],
            // Row 30 is Dee Jay's only normal-air family.
            State::AirPunch | State::AirForwardPunch | State::AirBackPunch => vec![197, 194],
            State::AirKick | State::AirForwardKick | State::AirBackKick => vec![195, 196, 193],
            State::Throw => vec![151, 152, 153, 154, 155, 156, 157, 158, 159],
            State::Special(0) => vec![216, 217, 218, 219, 220, 221, 222, 223, 224],
            State::Special(1) => vec![
                161, 162, 163, 164, 165, 166, 167, 168, 169, 170, 171, 172, 173, 174,
            ],
            State::Special(_) => vec![
                175, 176, 177, 178, 179, 180, 181, 182, 183, 184, 185, 186, 187, 188, 189, 190,
            ],
            State::Super => vec![
                161, 162, 163, 164, 165, 166, 167, 168, 169, 170, 171, 172, 173, 174, 175, 176,
                177, 178, 179, 180, 181, 182, 183, 184, 185, 186, 187, 188, 189, 190,
            ],
            State::Hit => vec![
                227, 228, 229, 230, 231, 232, 233, 234, 235, 236, 237, 238, 239, 240, 241, 242, 243,
            ],
            State::KnockedOut => vec![
                244, 245, 246, 247, 248, 249, 250, 251, 252, 253, 254, 255, 256, 257, 258, 259,
                260, 261, 262, 263,
            ],
            State::Victory => vec![198, 199, 200, 201, 202, 203, 204, 205, 206, 207, 208],
        },
        Character::Rose => match state {
            State::Idle => vec![11, 12, 13, 14, 0, 1, 2, 3, 4, 5, 4, 3, 2, 1],
            State::Walk => vec![6, 7, 8, 9, 10, 11, 12, 13, 14],
            State::WalkBackward => vec![53, 54, 55, 46, 47, 48, 49, 50, 51, 56],
            State::Crouch => vec![57, 58, 59, 60],
            State::Jump | State::JumpForward | State::JumpBackward => {
                vec![73, 70, 68, 65, 66, 62, 61, 63, 64, 67, 69, 72, 71]
            }
            State::Block => vec![309, 310, 311, 312],
            State::CrouchBlock => vec![57, 58, 59, 60],
            State::Punch => vec![83, 84, 78, 79],
            State::PunchMedium => vec![97, 86, 98, 87, 88, 89, 90, 91],
            State::PunchHeavy => vec![104, 105, 106, 107, 108, 109],
            State::ForwardPunch => vec![97, 86, 98, 87, 88, 89, 90, 91],
            State::BackPunch => vec![104, 105, 106, 107, 108, 109],
            State::Kick => vec![80, 74, 75, 76, 81, 77, 85, 82],
            State::KickMedium => vec![92, 93, 94, 95, 96],
            State::KickHeavy => vec![99, 100, 101, 102, 103],
            State::ForwardKick => vec![92, 93, 94, 95, 96],
            State::BackKick => vec![99, 100, 101, 102, 103],
            State::CrouchPunch => vec![113, 114, 115, 116, 117, 118, 119],
            State::CrouchForwardPunch => vec![125, 126, 127, 128],
            State::CrouchBackPunch => vec![129, 130, 131],
            State::CrouchKick => vec![124, 110, 111, 112],
            State::CrouchForwardKick => vec![120, 121, 122, 123],
            State::CrouchBackKick => vec![132, 133, 134],
            State::AirPunch => vec![143, 144, 148, 145, 141, 142, 137, 138, 139, 140],
            State::AirForwardPunch => vec![154, 155, 156, 157, 158, 159, 160],
            State::AirBackPunch => vec![170, 171, 172, 173, 174],
            State::AirKick => vec![149, 150, 152, 151, 153],
            State::AirForwardKick => vec![161, 162, 163, 164, 165, 166, 167, 168, 169],
            State::AirBackKick => vec![175, 176, 177, 178, 179],
            // Rose's labelled throw row is the victim reaction.
            State::Throw => vec![204, 205, 206, 207, 208, 209, 210, 211],
            State::Special(0) => vec![233, 234, 235, 236, 237, 238, 239, 240, 241],
            State::Special(1) => vec![125, 126, 127, 128, 135],
            State::Special(_) => vec![220, 221, 222, 223, 224, 225, 232, 233],
            State::Super => vec![
                242, 243, 244, 245, 246, 247, 248, 249, 252, 253, 254, 255, 256, 257, 258, 259,
                260, 261, 262, 263, 264, 265, 266, 267, 268,
            ],
            State::Hit => vec![277, 278, 279, 280, 281, 282, 283, 284],
            State::KnockedOut => vec![286, 287, 288, 289, 290, 291, 292, 293, 294, 295],
            State::Victory => vec![269, 270, 271, 272, 273, 274, 275, 276],
        },
        Character::FeiLong => match state {
            State::Idle => vec![0, 5, 1, 2, 3, 4, 3, 2, 1, 5],
            State::Walk => vec![38, 44, 45, 39, 40, 41, 42, 43],
            State::WalkBackward => vec![51, 52, 53, 46, 47, 48, 49, 50],
            State::Crouch => vec![35, 36, 37],
            State::Jump | State::JumpForward | State::JumpBackward => {
                vec![59, 66, 63, 67, 60, 61, 64, 62, 65]
            }
            State::Block => vec![29, 30, 31],
            State::CrouchBlock => vec![32, 33, 34],
            State::Punch => vec![84, 76],
            State::PunchMedium => vec![77, 78, 79, 80, 74],
            State::PunchHeavy => vec![81, 82, 83, 75],
            State::ForwardPunch => vec![85, 94, 86, 87, 88, 89, 90, 91, 92, 93],
            State::BackPunch => vec![228, 229, 230, 226, 227, 231, 232, 233],
            State::Kick => vec![110, 106, 100, 107],
            State::KickMedium => vec![108, 109, 101, 102, 103, 104, 105],
            State::KickHeavy => vec![118, 119, 120, 121, 111, 112, 113, 114, 115, 116, 117],
            State::ForwardKick => vec![118, 119, 120, 121, 111, 112, 113, 114, 115, 116, 117],
            State::BackKick => vec![122, 123, 124, 125, 126, 127, 131, 133, 128, 132, 129, 130],
            State::CrouchPunch => vec![170, 164, 171, 172, 174, 165, 166, 167, 168, 173, 169, 163],
            State::CrouchForwardPunch | State::CrouchBackPunch => {
                vec![170, 164, 171, 172, 174, 165, 166, 167, 168, 173, 169, 163]
            }
            State::CrouchKick => vec![140, 141, 134, 135, 142, 143, 136, 137, 138, 139],
            State::CrouchForwardKick => vec![145, 146, 147, 148, 144, 149, 150],
            State::CrouchBackKick => vec![154, 155, 156, 151, 152, 153, 157, 158, 159, 160, 161, 162],
            State::AirPunch => vec![190, 185, 186, 187, 191, 195, 192, 193, 188, 194, 189, 196],
            State::AirForwardPunch => vec![208, 212, 215, 209, 210, 213, 214, 211],
            State::AirBackPunch => vec![190, 185, 186, 187, 191, 195, 192, 193, 188, 194, 189, 196],
            State::AirKick => vec![202, 198, 203, 204, 199, 200, 205, 206, 207, 201, 197],
            State::AirForwardKick => vec![216, 217, 218, 223, 224, 219, 220, 221, 225, 222],
            State::AirBackKick => vec![271, 272, 273],
            State::Throw => vec![208, 212, 215, 209, 210, 213, 214, 211],
            State::Special(0) => vec![217, 218, 223, 224, 216, 219, 220, 221, 225, 222],
            State::Special(1) => vec![235, 236, 237, 238, 239, 240, 241, 244, 242, 243, 234, 245],
            State::Special(_) => vec![
                246, 258, 247, 259, 248, 256, 249, 257, 252, 253, 254, 255, 250, 251,
            ],
            State::Super => vec![
                230, 231, 232, 233, 234, 235, 236, 237, 238, 239, 240, 241, 242, 243, 244, 245,
                246, 247, 248, 249, 250, 251, 252, 253, 254, 255, 256, 257, 258, 259, 260, 261,
                262, 263, 264, 265, 266, 267, 268, 269, 273, 274, 275, 276, 277, 278, 279,
            ],
            State::Hit => vec![
                288, 277, 278, 289, 279, 280, 281, 290, 282, 283, 284, 285, 286, 287,
            ],
            State::KnockedOut => vec![311, 313, 314, 317, 319, 320, 321, 315, 318, 316, 312],
            State::Victory => vec![6, 7, 8, 9, 10, 11, 12, 13, 14, 15, 16, 17],
        },
        Character::Cammy => match state {
            State::Idle => vec![37, 38, 33, 34, 35, 36, 35, 34, 33, 38],
            State::Walk => vec![39, 40, 45, 46, 47, 48, 41, 42, 43, 44],
            State::WalkBackward => vec![53, 54, 55, 56, 57, 49, 50, 51, 58, 52],
            State::Crouch => vec![60, 61],
            State::Jump => vec![68, 66, 62, 63, 64, 65, 67],
            State::JumpForward => vec![74, 72, 69, 70, 71, 73, 75],
            State::JumpBackward => vec![80, 78, 76, 77, 79, 81],
            State::Block => vec![82, 83],
            State::CrouchBlock => vec![84, 85],
            State::Punch => vec![86, 87],
            State::PunchMedium => vec![88, 89],
            State::PunchHeavy => vec![90, 91, 93, 94, 95, 92],
            State::ForwardPunch => vec![97, 98, 102, 96, 99, 100, 101],
            State::BackPunch => vec![93, 94, 95, 92],
            State::Kick => vec![107, 108, 109],
            State::KickMedium => vec![110, 103, 104, 105],
            State::KickHeavy => vec![111, 106, 112, 113, 114, 115],
            State::ForwardKick => vec![
                118, 119, 120, 121, 122, 123, 117, 125, 127, 128, 126, 116, 124, 129,
            ],
            State::BackKick => vec![111, 106, 112, 113, 114, 115],
            State::CrouchPunch => vec![135, 136, 139, 140],
            State::CrouchForwardPunch => vec![137, 138],
            State::CrouchBackPunch => vec![132, 130, 131, 133, 134],
            State::CrouchKick => vec![149, 150, 151, 152],
            State::CrouchForwardKick => vec![143, 141, 144],
            State::CrouchBackKick => vec![145, 146, 147, 142, 148],
            State::AirPunch | State::AirForwardPunch | State::AirBackPunch => {
                vec![158, 159, 153, 154, 155, 156, 157, 160]
            }
            State::AirKick | State::AirForwardKick | State::AirBackKick => {
                vec![165, 166, 161, 162, 163, 164, 167, 168]
            }
            State::Throw => vec![200, 202, 201, 203, 204, 206, 205, 207, 208, 210, 211, 209],
            State::Special(0) => vec![169, 170, 172, 173, 174, 175, 171],
            State::Special(1) => vec![177, 176, 178, 179, 180, 181, 182, 183],
            State::Special(_) => vec![
                189, 190, 185, 186, 184, 187, 188, 192, 193, 194, 191, 195, 196,
            ],
            State::Super => vec![
                170, 171, 172, 173, 174, 175, 176, 177, 178, 179, 180, 181, 182, 183, 184, 185,
                186, 187, 188, 189, 190, 191, 192, 193, 194, 195, 196, 197, 198, 199,
            ],
            State::Hit => vec![
                226, 231, 227, 232, 233, 228, 224, 234, 225, 229, 230, 235, 237, 236,
            ],
            State::KnockedOut => vec![
                253, 251, 249, 245, 250, 252, 246, 247, 248, 254, 257, 255, 256, 258, 260, 259,
            ],
            State::Victory => vec![
                261, 262, 263, 264, 265, 266, 267, 268, 273, 274, 269, 270, 271, 272,
            ],
        },
    }
}

/// Every animation has at least one component and at most 64, and every
/// character's victory animation has more than one: there is always
/// something to show, and a winner visibly celebrates.
pub proof fn lemma_every_animation_is_playable(character: Character, state: State)
    ensures
        0 < frames_table(character, state).len() <= 64,
        frames_table(character, State::Victory).len() > 1,
{
}

/// Ticks each component of a looping animation stays on screen.
pub open spec fn ticks_per_frame(state: State) -> nat {
    match state {
        State::Walk | State::WalkBackward => 4,
        State::Victory => 7,
        State::Block | State::CrouchBlock => 6,
        _ => 8,
    }
}

/// The smaller of `a` and `b`.
pub open spec fn min_nat(a: nat, b: nat) -> nat {
    if a < b {
        a
    } else {
        b
    }
}

/// Which of the `len` components of an animation is shown.  Attacks and hit
/// stun stretch their animation over the action's length; jumps advance one
/// component every three ticks of the action; knock-outs and crouches play
/// once and hold their last component; everything else loops.
pub open spec fn frame_slot(
    state: State,
    action_frame: u16,
    action_total: u16,
    animation_tick: u32,
    len: nat,
) -> nat
    recommends
        len > 0,
{
    let last = (len - 1) as nat;
    if state.attacking() || state == State::Hit {
        let total: nat = if action_total > 0 {
            action_total as nat
        } else {
            1
        };
        min_nat((action_frame as nat * len) / total, last)
    } else if state == State::Jump || state == State::JumpForward || state
        == State::JumpBackward {
        min_nat(action_frame as nat / 3, last)
    } else if state == State::KnockedOut {
        min_nat(animation_tick as nat / 7, last)
    } else if state == State::Crouch {
        min_nat(animation_tick as nat / 6, last)
    } else {
        (animation_tick as nat / ticks_per_frame(state)) % len
    }
}

/// The sprite-sheet component a fighter shows on this tick.
pub fn sprite_component(fighter: &Fighter) -> (component: u16)
    ensures
        frame_slot(
            fighter.state,
            fighter.action_frame,
            fighter.action_total,
            fighter.animation_tick,
            frames_table(fighter.character, fighter.state).len(),
        ) < frames_table(fighter.character, fighter.state).len(),
        component == frames_table(fighter.character, fighter.state)[frame_slot(
            fighter.state,
            fighter.action_frame,
            fighter.action_total,
            fighter.animation_tick,
            frames_table(fighter.character, fighter.state).len(),
        ) as int],
{
    let frames = animation_frames(fighter.character, fighter.state);
    proof {
        lemma_every_animation_is_playable(fighter.character, fighter.state);
    }
    let len = frames.len();
    let last = len - 1;
    let state = fighter.state;
    let index: usize = if state.is_attack() || state == State::Hit {
        let total: usize = if fighter.action_total > 0 {
            fighter.action_total as usize
        } else {
            1
        };
        let frame = fighter.action_frame as usize;
        assert(frame * len <= 65535 * 64) by (nonlinear_arith)
            requires
                frame <= 65535,
                len <= 64,
        ;
        let scaled = (frame * len) / total;
        if scaled < last {
            scaled
        } else {
            last
        }
    } else if state == State::Jump || state == State::JumpForward || state == State::JumpBackward {
        let slot = fighter.action_frame as usize / 3;
        if slot < last {
            slot
        } else {
            last
        }
    } else if state == State::KnockedOut {
        let slot = fighter.animation_tick as usize / 7;
        if slot < last {
            slot
        } else {
            last
        }
    } else if state == State::Crouch {
        let slot = fighter.animation_tick as usize / 6;
        if slot < last {
            slot
        } else {
            last
        }
    } else {
        let ticks: usize = match state {
            State::Walk | State::WalkBackward => 4,
            State::Victory => 7,
            State::Block | State::CrouchBlock => 6,
            _ => 8,
        };
        (fighter.animation_tick as usize / ticks) % len
    };
    frames[index]
}

/// Whether a fighter's sprite is drawn mirrored.  The sheets face right,
/// except Rose's super strip, which is drawn facing left.
pub fn sprite_flip_x(character: Character, state: State, facing: i8) -> (flip: bool)
    ensures
        flip == (if character == Character::Rose && state == State::Super {
            facing > 0
        } else {
            facing < 0
        }),
{
    // Rose's super strip is authored facing left.
    if character == Character::Rose && state == State::Super {
        facing > 0
    } else {
        facing < 0
    }
}

/// Distance between two colour channel values.
pub open spec fn channel_gap(a: u8, b: u8) -> int {
    if a >= b {
        a - b
    } else {
        b - a
    }
}

/// Pixel `p` of the RGBA bytes `rgba` has nearly the colour of the first
/// pixel: its red, green and blue differ from it by 6 in total at most.
pub open spec fn matches_backdrop(rgba: Seq<u8>, p: int) -> bool {
    channel_gap(rgba[4 * p], rgba[0]) + channel_gap(rgba[4 * p + 1], rgba[1]) + channel_gap(
        rgba[4 * p + 2],
        rgba[2],
    ) <= 6
}

/// Makes a sprite sheet's flat backdrop transparent: the top-left pixel
/// gives the backdrop colour, and every pixel within a colour distance of
/// 6 of it gets alpha 0.  Colours and all other alphas stay.
pub fn remove_flat_background(rgba: &mut Vec<u8>)
    requires
        old(rgba).len() >= 4,
    ensures
        final(rgba).len() == old(rgba).len(),
        forall|i: int|
            0 <= i < old(rgba).len() ==> #[trigger] final(rgba)@[i] == (if i % 4 == 3
                && matches_backdrop(old(rgba)@, i / 4) {
                0u8
            } else {
                old(rgba)@[i]
            }),
{
    let key_r = rgba[0];
    let key_g = rgba[1];
    let key_b = rgba[2];
    let pixels = rgba.len() / 4;
    let mut p: usize = 0;
    while p < pixels
        invariant
            pixels * 4 <= old(rgba).len() < pixels * 4 + 4,
            p <= pixels,
            rgba.len() == old(rgba).len(),
            key_r == old(rgba)@[0],
            key_g == old(rgba)@[1],
            key_b == old(rgba)@[2],
            forall|i: int|
                0 <= i < 4 * p ==> #[trigger] rgba@[i] == (if i % 4 == 3 && matches_backdrop(
                    old(rgba)@,
                    i / 4,
                ) {
                    0u8
                } else {
                    old(rgba)@[i]
                }),
            forall|i: int| 4 * p <= i < old(rgba).len() ==> #[trigger] rgba@[i] == old(rgba)@[i],
        decreases pixels - p,
    {
        let base = 4 * p;
        let r = rgba[base];
        let g = rgba[base + 1];
        let b = rgba[base + 2];
        let gap_r: u16 = if r >= key_r {
            (r - key_r) as u16
        } else {
            (key_r - r) as u16
        };
        let gap_g: u16 = if g >= key_g {
            (g - key_g) as u16
        } else {
            (key_g - g) as u16
        };
        let gap_b: u16 = if b >= key_b {
            (b - key_b) as u16
        } else {
            (key_b - b) as u16
        };
        proof {
            assert(base / 4 == p as int);
            assert((base + 1) / 4 == p as int);
            assert((base + 2) / 4 == p as int);
            assert((base + 3) / 4 == p as int);
        }
        if gap_r + gap_g + gap_b <= 6 {
            rgba.set(base + 3, 0);
        }
        p = p + 1;
    }
}

} // verus!
