# mtld3d-core

The core of a Direct3D 9 implementation on top of Metal, written and proved in Verus.

* `passes` turns draws, clears and bindings into render passes and settles what each pass
  loads and stores.
* `dxso` writes the shaders of the fixed-function pipeline; `ff_state` holds its state and
  the constants those shaders read.
* `convert` maps Direct3D formats, enumerations, vertex declarations and triangle fans to
  their Metal counterparts.
* `config` reads the settings, and `scratch` hands out the memory of one frame.

Handles are plain integers, and floats are carried as their bits. Arithmetic on floats,
logging and raw addresses are in `app`. Each module states what its functions return over
spec functions; the public proof functions, mostly in files named `laws`, state what holds
across them.
