# pokebot_pipeline

The decision logic of a bot that plays Pokémon from captured frames,
written in Verus and proved against its contracts.

A frame arrives as an RGB raster with what is known of the game state.
Image heuristics and visual detectors read text, menus, dialog boxes, HP
bars, places and surroundings off it; scene detectors weigh those signals
into a scene. A smart action service chooses a button from past
experience, basic rules or a fallback heuristic, and learns which actions
moved the game on. Macros repeat a button for a few ticks, reward
calculators score navigation, battles and story progress, and experience
buffers collect what the learner trains on. Per-client state tracks how
long the intro has shown and what was decided.

Confidences, ratios and rewards are integers (thousandths, percent or
hundredths) so that every comparison is exact. Times are microseconds.
The decision core (`ai_pipeline`, `client_state`) takes them from its
caller; the detection pipeline, the frame contexts and their metrics read
the monotonic clock themselves, and each hands the reading to a verified
function that also takes it from a caller (`process_timed`,
`with_processing_time`, `record_total`, `record_analysis_duration`).

## Layout

- `src/` — the verified library. `types`, `raster` and `region` hold the
  vocabulary; `heuristics`, `analyzers`, `ui_detectors`, `scene_detectors`,
  `detection_pipeline` and `orchestrator` the image analysis;
  `smart_action`, `fast_situation`, `macros`, `rewards`, `experience`,
  `client_state`, `image_change` and `fast_change` the decisions and their
  bookkeeping; `ai_pipeline`, `optimized_pipeline` and `pipeline_config`
  assemble them. Calls into `rand`, `uuid`, `image` and `imghash` sit
  behind a few functions whose contracts are trusted (`random`, `raster`),
  as do the clock reads in `detection`.
- `tests/` — tests run against the compiled library.
- `app/` — the asynchronous side: conversion from decoded images, the
  policy and its sampling, the frame loop with its channels, and `tower`
  services around the library's components.
