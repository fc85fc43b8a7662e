# realsense2

A verified model of the object layer of the Intel RealSense SDK 2.0
(librealsense2).

- `src/` is the library. It holds the enumerations of the C headers with
  their C values, errors and the fallbacks applied to failed C queries,
  stream profiles, frames and framesets, devices and device lists, the
  streaming state of a pipeline, configuration requests, context arguments
  and processing-block descriptions. Every function is verified against its
  contract; the laws that relate several functions are proof functions.
- `app/` holds the C bindings and the handles that own librealsense2
  objects. Each handle performs its C calls and hands their outcomes to the
  library, which decides what they mean.
- `tests/` exercises the library on concrete values.
