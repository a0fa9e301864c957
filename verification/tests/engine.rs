//! The audio-thread state machine, driven through a real message channel.

use std::sync::mpsc;

use dsp_box::AudioProcessInfo;
use dsp_box::AudioThread;
use dsp_box::AudioPlayerBuffer;
use dsp_box::DSPBoxApp;
use dsp_box::GuiToAudioMsg;
use dsp_box::HardClip;
use dsp_box::Param;
use dsp_box::ProtocolError;

/// A deterministic float effect: doubles every sample.  Implemented here,
/// outside the verified crate, the way an application's own algorithm is.
struct Doubler;

impl DSPBoxApp<f32> for Doubler {
    fn host_reset(&mut self, _sample_rate: u32) {}

    fn process_stereo(&mut self, proc_info: &mut AudioProcessInfo<f32>) {
        for i in 0..proc_info.in_l.len() {
            proc_info.out_l[i] = 2.0 * proc_info.in_l[i];
            proc_info.out_r[i] = 2.0 * proc_info.in_r[i];
        }
    }
}

fn doubler_engine() -> (
    mpsc::Sender<GuiToAudioMsg<f32>>,
    AudioThread<f32, Doubler>,
) {
    let (tx, rx) = mpsc::channel();
    (tx, AudioThread::new(Doubler, rx))
}

fn block(values: &[f32]) -> Vec<f32> {
    values.to_vec()
}

#[test]
fn preset_then_param_change_updates_the_cache() {
    let (tx, mut engine) = doubler_engine();
    tx.send(GuiToAudioMsg::InitPreset(vec![
        Param { id: 0, value: 0.0 },
        Param { id: 1, value: -6.0 },
    ]))
    .unwrap();
    tx.send(GuiToAudioMsg::ParamChanged(Param { id: 1, value: -3.0 }))
        .unwrap();
    engine.host_reset(48000);
    let in_l = block(&[0.0; 4]);
    let in_r = block(&[0.0; 4]);
    let mut out_l = block(&[0.0; 4]);
    let mut out_r = block(&[0.0; 4]);
    engine
        .process_audio_stereo(&in_l, &in_r, &mut out_l, &mut out_r)
        .unwrap();
    assert_eq!(engine.params(), &vec![0.0, -3.0]);
}

#[test]
fn processing_before_any_preset_leaves_outputs_alone() {
    let (_tx, mut engine) = doubler_engine();
    engine.host_reset(48000);
    let in_l = block(&[1.0, 2.0, 3.0]);
    let in_r = block(&[4.0, 5.0, 6.0]);
    let mut out_l = block(&[7.0, 8.0, 9.0]);
    let mut out_r = block(&[-7.0, -8.0, -9.0]);
    engine
        .process_audio_stereo(&in_l, &in_r, &mut out_l, &mut out_r)
        .unwrap();
    assert_eq!(out_l, vec![7.0, 8.0, 9.0]);
    assert_eq!(out_r, vec![-7.0, -8.0, -9.0]);
}

#[test]
fn processing_before_any_host_reset_is_a_no_op() {
    let (tx, mut engine) = doubler_engine();
    tx.send(GuiToAudioMsg::InitPreset(vec![])).unwrap();
    let in_l = block(&[1.0, 2.0]);
    let in_r = block(&[1.0, 2.0]);
    let mut out_l = block(&[0.5, 0.5]);
    let mut out_r = block(&[0.5, 0.5]);
    engine
        .process_audio_stereo(&in_l, &in_r, &mut out_l, &mut out_r)
        .unwrap();
    assert_eq!(out_l, vec![0.5, 0.5]);
    assert_eq!(out_r, vec![0.5, 0.5]);
    // The preset message is still queued: it was never drained.
    engine.host_reset(44100);
    engine
        .process_audio_stereo(&in_l, &in_r, &mut out_l, &mut out_r)
        .unwrap();
    assert_eq!(out_l, vec![2.0, 4.0]);
}

#[test]
fn bypass_round_trip_restores_processing() {
    let (tx, mut engine) = doubler_engine();
    tx.send(GuiToAudioMsg::InitPreset(vec![])).unwrap();
    engine.host_reset(48000);
    let in_l = block(&[1.0, -2.0, 3.0]);
    let in_r = block(&[0.25, 0.5, -0.75]);
    let mut out_l = block(&[0.0; 3]);
    let mut out_r = block(&[0.0; 3]);

    engine
        .process_audio_stereo(&in_l, &in_r, &mut out_l, &mut out_r)
        .unwrap();
    let before_l = out_l.clone();
    let before_r = out_r.clone();
    assert_eq!(before_l, vec![2.0, -4.0, 6.0]);

    tx.send(GuiToAudioMsg::Bypass).unwrap();
    engine
        .process_audio_stereo(&in_l, &in_r, &mut out_l, &mut out_r)
        .unwrap();
    // Bypass is transparent pass-through.
    assert_eq!(out_l, in_l);
    assert_eq!(out_r, in_r);

    tx.send(GuiToAudioMsg::Unbypass).unwrap();
    engine
        .process_audio_stereo(&in_l, &in_r, &mut out_l, &mut out_r)
        .unwrap();
    // Toggling bypass off restores the exact pre-bypass output.
    assert_eq!(out_l, before_l);
    assert_eq!(out_r, before_r);
}

#[test]
fn playing_backing_track_replaces_the_input() {
    let (tx, mut engine) = doubler_engine();
    tx.send(GuiToAudioMsg::InitPreset(vec![])).unwrap();
    let mut data: Vec<f32> = Vec::new();
    for i in 0..8 {
        data.push(i as f32);
        data.push(10.0 * i as f32);
    }
    let buffer = AudioPlayerBuffer::new(data, 8, 2, 4).unwrap();
    tx.send(GuiToAudioMsg::LoadAudioPlayerBuffer(buffer)).unwrap();
    tx.send(GuiToAudioMsg::Play).unwrap();
    engine.host_reset(48000);
    let in_l = block(&[100.0; 4]);
    let in_r = block(&[100.0; 4]);
    let mut out_l = block(&[0.0; 4]);
    let mut out_r = block(&[0.0; 4]);
    engine
        .process_audio_stereo(&in_l, &in_r, &mut out_l, &mut out_r)
        .unwrap();
    // The backing track's first four frames, doubled.
    assert_eq!(out_l, vec![0.0, 2.0, 4.0, 6.0]);
    assert_eq!(out_r, vec![0.0, 20.0, 40.0, 60.0]);
}

#[test]
fn stop_message_pauses_and_rewinds_playback() {
    let (tx, mut engine) = doubler_engine();
    tx.send(GuiToAudioMsg::InitPreset(vec![])).unwrap();
    let mut data: Vec<f32> = Vec::new();
    for i in 0..8 {
        data.push(i as f32);
        data.push(i as f32);
    }
    let buffer = AudioPlayerBuffer::new(data, 8, 2, 2).unwrap();
    tx.send(GuiToAudioMsg::LoadAudioPlayerBuffer(buffer)).unwrap();
    tx.send(GuiToAudioMsg::Play).unwrap();
    engine.host_reset(48000);
    let in_l = block(&[50.0, 50.0]);
    let in_r = block(&[50.0, 50.0]);
    let mut out_l = block(&[0.0, 0.0]);
    let mut out_r = block(&[0.0, 0.0]);
    engine
        .process_audio_stereo(&in_l, &in_r, &mut out_l, &mut out_r)
        .unwrap();
    assert_eq!(out_l, vec![0.0, 2.0]);
    tx.send(GuiToAudioMsg::Stop).unwrap();
    engine
        .process_audio_stereo(&in_l, &in_r, &mut out_l, &mut out_r)
        .unwrap();
    // Stopped: the host input passes to the algorithm instead.
    assert_eq!(out_l, vec![100.0, 100.0]);
    tx.send(GuiToAudioMsg::Play).unwrap();
    engine
        .process_audio_stereo(&in_l, &in_r, &mut out_l, &mut out_r)
        .unwrap();
    // Stop rewound the cursor to frame zero.
    assert_eq!(out_l, vec![0.0, 2.0]);
}

#[test]
fn out_of_range_param_id_is_a_protocol_error() {
    let (tx, mut engine) = doubler_engine();
    tx.send(GuiToAudioMsg::InitPreset(vec![Param { id: 0, value: 1.0 }]))
        .unwrap();
    tx.send(GuiToAudioMsg::ParamChanged(Param { id: 5, value: 2.0 }))
        .unwrap();
    engine.host_reset(48000);
    let in_l = block(&[0.0; 2]);
    let in_r = block(&[0.0; 2]);
    let mut out_l = block(&[0.0; 2]);
    let mut out_r = block(&[0.0; 2]);
    let r = engine.process_audio_stereo(&in_l, &in_r, &mut out_l, &mut out_r);
    assert_eq!(r.err(), Some(ProtocolError::ParamIdOutOfRange));
    // The valid prefix was applied before the violation was found.
    assert_eq!(engine.params(), &vec![1.0]);
}

#[test]
fn too_short_backing_track_is_a_protocol_error() {
    let (tx, mut engine) = doubler_engine();
    tx.send(GuiToAudioMsg::InitPreset(vec![])).unwrap();
    let data: Vec<f32> = vec![0.0; 8];
    let buffer = AudioPlayerBuffer::new(data, 4, 2, 4).unwrap();
    tx.send(GuiToAudioMsg::LoadAudioPlayerBuffer(buffer)).unwrap();
    tx.send(GuiToAudioMsg::Play).unwrap();
    engine.host_reset(48000);
    let in_l = block(&[0.0; 16]);
    let in_r = block(&[0.0; 16]);
    let mut out_l = block(&[3.0; 16]);
    let mut out_r = block(&[3.0; 16]);
    let r = engine.process_audio_stereo(&in_l, &in_r, &mut out_l, &mut out_r);
    assert_eq!(r.err(), Some(ProtocolError::BufferTooShort));
    // The outputs were left untouched.
    assert_eq!(out_l, vec![3.0; 16]);
    assert_eq!(
        ProtocolError::BufferTooShort.reason(),
        "backing track is shorter than the processing block"
    );
    assert_eq!(
        ProtocolError::ParamIdOutOfRange.reason(),
        "parameter id is outside the parameter cache"
    );
}

#[test]
fn second_preset_replaces_the_cache_wholesale() {
    let (tx, mut engine) = doubler_engine();
    tx.send(GuiToAudioMsg::InitPreset(vec![
        Param { id: 0, value: 1.0 },
        Param { id: 1, value: 2.0 },
        Param { id: 2, value: 3.0 },
    ]))
    .unwrap();
    tx.send(GuiToAudioMsg::InitPreset(vec![Param { id: 0, value: 9.0 }]))
        .unwrap();
    engine.host_reset(48000);
    let in_l = block(&[0.0]);
    let in_r = block(&[0.0]);
    let mut out_l = block(&[0.0]);
    let mut out_r = block(&[0.0]);
    engine
        .process_audio_stereo(&in_l, &in_r, &mut out_l, &mut out_r)
        .unwrap();
    assert_eq!(engine.params(), &vec![9.0]);
}

#[test]
fn messages_apply_in_send_order() {
    let (_tx, mut engine) = doubler_engine();
    engine
        .apply_messages(vec![
            GuiToAudioMsg::InitPreset(vec![Param { id: 0, value: 0.5 }]),
            GuiToAudioMsg::ParamChanged(Param { id: 0, value: 1.5 }),
            GuiToAudioMsg::ParamChanged(Param { id: 0, value: 2.5 }),
        ])
        .unwrap();
    // The last change in send order wins.
    assert_eq!(engine.params(), &vec![2.5]);
}

#[test]
fn panic_message_is_received_and_ignored() {
    let (tx, mut engine) = doubler_engine();
    tx.send(GuiToAudioMsg::InitPreset(vec![])).unwrap();
    tx.send(GuiToAudioMsg::Panic).unwrap();
    engine.host_reset(48000);
    let in_l = block(&[1.0]);
    let in_r = block(&[1.0]);
    let mut out_l = block(&[0.0]);
    let mut out_r = block(&[0.0]);
    engine
        .process_audio_stereo(&in_l, &in_r, &mut out_l, &mut out_r)
        .unwrap();
    assert_eq!(out_l, vec![2.0]);
}

#[test]
fn hard_clip_limits_to_the_threshold_parameter() {
    let (tx, rx) = mpsc::channel();
    let mut engine: AudioThread<i32, HardClip> = AudioThread::new(HardClip::new(), rx);
    tx.send(GuiToAudioMsg::InitPreset(vec![Param { id: 0, value: 5 }]))
        .unwrap();
    engine.host_reset(48000);
    let in_l: Vec<i32> = vec![-10, -3, 0, 4, 9];
    let in_r: Vec<i32> = vec![6, -6, 5, -5, 0];
    let mut out_l: Vec<i32> = vec![0; 5];
    let mut out_r: Vec<i32> = vec![0; 5];
    engine
        .process_audio_stereo(&in_l, &in_r, &mut out_l, &mut out_r)
        .unwrap();
    assert_eq!(out_l, vec![-5, -3, 0, 4, 5]);
    assert_eq!(out_r, vec![5, -5, 5, -5, 0]);
}

#[test]
fn hard_clip_without_parameters_passes_through() {
    let mut clip = HardClip::new();
    let mut info = AudioProcessInfo {
        in_l: vec![i32::MIN + 1, -1, 0, 1, i32::MAX],
        in_r: vec![3, 2, 1, 0, -1],
        out_l: vec![0; 5],
        out_r: vec![0; 5],
        sample_rate: 44100,
        in_params: vec![],
    };
    clip.process_stereo(&mut info);
    assert_eq!(info.out_l, vec![i32::MIN + 1, -1, 0, 1, i32::MAX]);
    assert_eq!(info.out_r, vec![3, 2, 1, 0, -1]);
}
